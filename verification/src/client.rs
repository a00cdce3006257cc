//! The decisions of a client: which input goes into the next tick, when the
//! word of the server overrides the prediction, and what is sent. Clocks,
//! sockets and the agent that may play in place of a person are the caller's.

use vstd::prelude::*;
use vstd::string::StringSliceAdditionalSpecFns;
use crate::crossy_ruleset::AliveState;
use crate::crossy_ruleset::CrossyRulesetFST;
use crate::crossy_ruleset::GameConfig;
use crate::game::Input;
use crate::game::MoveState;
use crate::game::PlayerInputs;
use crate::game::Pos;
use crate::game::PreciseCoords;
use crate::game::ALL_INPUTS;
use crate::interop::ClientTick;
use crate::interop::CrossyMessage;
use crate::interop::LindenServerTick;
use crate::interop::TimeRequestEnd;
use crate::interop::TimeRequestPacket;
use crate::map::river::RiverSpawnTimes;
use crate::map::GameMap;
use crate::map::Row;
use crate::map::RowType;
use crate::map::spec_row_type;
use crate::player_id_map::PlayerId;
use crate::time_sync::ClockEstimate;
use crate::time_sync::TIME_REQUEST_INTERVAL;
use crate::timeline::Timeline;
use crate::timeline::TimelineView;
use crate::timeline::TICK_INTERVAL_US;

verus! {

/// The player that this client plays, and the input that waits for it.
#[derive(Clone, Copy, Debug, PartialEq, Eq, Structural)]
pub struct LocalPlayerInfo {
    pub player_id: PlayerId,
    pub buffered_input: Input,
}

/// Who decides the inputs of the local player.
#[derive(Clone, Copy, Debug, PartialEq, Eq, Structural)]
pub enum AiConfig {
    /// The person at the keyboard.
    NoAgent,
    /// An agent that heads for the top of the map.
    GoUp,
}

/// A move that the local player could make onto a lilypad, for an overlay.
#[derive(Clone, Copy, Debug, PartialEq, Eq, Structural)]
pub struct LillyOverlay {
    pub precise_coords: PreciseCoords,
    pub input: Input,
}

/// A client of one game.
#[derive(Debug)]
pub struct Client {
    pub clock: ClockEstimate,
    pub timeline: Timeline,
    pub last_tick: u32,
    pub last_server_frame_id: Option<u32>,
    pub local_player_info: Option<LocalPlayerInfo>,
    pub ready_state: bool,
    pub trusted_rule_state: Option<CrossyRulesetFST>,
    pub queued_time_info: Option<TimeRequestEnd>,
    pub queued_server_linden_messages: Vec<LindenServerTick>,
    pub ai: AiConfig,
}

/// A client as the contracts see it. The oldest queued message comes first.
pub struct ClientView {
    pub clock: ClockEstimate,
    pub timeline: TimelineView,
    pub last_tick: u32,
    pub last_server_frame_id: Option<u32>,
    pub local_player_info: Option<LocalPlayerInfo>,
    pub ready_state: bool,
    pub trusted_rule_state: Option<CrossyRulesetFST>,
    pub queued_time_info: Option<TimeRequestEnd>,
    pub queued: Seq<LindenServerTick>,
    pub ai: AiConfig,
}

impl View for Client {
    type V = ClientView;

    open spec fn view(&self) -> ClientView {
        ClientView {
            clock: self.clock,
            timeline: self.timeline@,
            last_tick: self.last_tick,
            last_server_frame_id: self.last_server_frame_id,
            local_player_info: self.local_player_info,
            ready_state: self.ready_state,
            trusted_rule_state: self.trusted_rule_state,
            queued_time_info: self.queued_time_info,
            queued: self.queued_server_linden_messages@,
            ai: self.ai,
        }
    }
}

/// Whether the bytes spell `word`, letters of either case taken as equal.
/// `word` is in lower case.
pub open spec fn spec_spells(bytes: Seq<u8>, word: Seq<u8>) -> bool {
    bytes.len() == word.len() && forall|i: int|
        0 <= i < word.len() ==> spec_lower(#[trigger] bytes[i]) == word[i]
}

/// The byte of a capital letter as the byte of its small letter; other
/// bytes as they are.
pub open spec fn spec_lower(b: u8) -> u8 {
    if 65 <= b <= 90 {
        (b + 32) as u8
    } else {
        b
    }
}

fn spells(bytes: &[u8], word: &[u8]) -> (r: bool)
    ensures
        r == spec_spells(bytes@, word@),
{
    if bytes.len() != word.len() {
        return false;
    }
    let mut i: usize = 0;
    while i < word.len()
        invariant
            i <= word.len(),
            bytes@.len() == word@.len(),
            forall|k: int| 0 <= k < i ==> spec_lower(#[trigger] bytes@[k]) == word@[k],
        decreases word.len() - i,
    {
        let b = bytes[i];
        let low: u8 = if 65 <= b && b <= 90 {
            b + 32
        } else {
            b
        };
        if low != word[i] {
            return false;
        }
        i = i + 1;
    }
    true
}

/// The bytes of `none`.
pub open spec fn spec_word_none() -> Seq<u8> {
    seq![110u8, 111u8, 110u8, 101u8]
}

/// The bytes of `go_up`.
pub open spec fn spec_word_go_up() -> Seq<u8> {
    seq![103u8, 111u8, 95u8, 117u8, 112u8]
}

impl AiConfig {
    /// The agent that a setting names: `none` and `go_up` are known, in
    /// letters of either case; any other setting names none.
    pub fn parse(ai_config: &str) -> (r: Option<AiConfig>)
        ensures
            r == if spec_spells(ai_config.spec_bytes(), spec_word_none()) {
                Some(AiConfig::NoAgent)
            } else if spec_spells(ai_config.spec_bytes(), spec_word_go_up()) {
                Some(AiConfig::GoUp)
            } else {
                None::<AiConfig>
            },
    {
        let bytes = ai_config.as_bytes();
        let none: [u8; 4] = [110, 111, 110, 101];
        let go_up: [u8; 5] = [103, 111, 95, 117, 112];
        assert(none@ =~= spec_word_none());
        assert(go_up@ =~= spec_word_go_up());
        if spells(bytes, none.as_slice()) {
            Some(AiConfig::NoAgent)
        } else if spells(bytes, go_up.as_slice()) {
            Some(AiConfig::GoUp)
        } else {
            None
        }
    }
}

/// The queue after every message from its front that is for a frame before
/// `frame_id` has been taken, and the last message taken.
pub open spec fn spec_take_due(
    queued: Seq<LindenServerTick>,
    frame_id: u32,
    taken: Option<LindenServerTick>,
) -> (Seq<LindenServerTick>, Option<LindenServerTick>)
    decreases queued.len(),
{
    if queued.len() > 0 && queued[0].latest.frame_id < frame_id {
        spec_take_due(queued.drop_first(), frame_id, Some(queued[0]))
    } else {
        (queued, taken)
    }
}

impl ClientView {
    /// Whether the local player is in the newest snapshot and can move.
    pub open spec fn spec_local_can_move(self) -> bool {
        match self.local_player_info {
            Some(info) => match self.timeline.top().player_states.spec_get(info.player_id) {
                Some(p) => p.spec_can_move(),
                None => false,
            },
            None => false,
        }
    }

    /// The input of the local player for the next tick: none while it
    /// cannot move; else what the agent thinks, where one plays, and else
    /// the buffered input.
    pub open spec fn spec_local_input(self, ai_input: Input) -> Input {
        match self.local_player_info {
            Some(info) => if !self.spec_local_can_move() {
                Input::NoInput
            } else if self.ai != AiConfig::NoAgent {
                ai_input
            } else {
                info.buffered_input
            },
            None => Input::NoInput,
        }
    }

    /// The player info after the next tick has taken its input: a buffered
    /// input that was used is gone.
    pub open spec fn spec_local_after(self) -> Option<LocalPlayerInfo> {
        match self.local_player_info {
            Some(info) => if self.spec_local_can_move() && self.ai == AiConfig::NoAgent {
                Some(LocalPlayerInfo { buffered_input: Input::NoInput, ..info })
            } else {
                Some(info)
            },
            None => None,
        }
    }

    /// The inputs of the next tick: those that led to the newest snapshot,
    /// with the input of the local player in its slot.
    pub open spec fn spec_tick_inputs(self, ai_input: Input) -> PlayerInputs {
        match self.local_player_info {
            Some(info) => self.timeline.top().player_inputs.spec_set(
                info.player_id,
                self.spec_local_input(ai_input),
            ),
            None => self.timeline.top().player_inputs,
        }
    }

    /// The client after it has predicted the world up to `current_time_us`.
    /// A timeline that is already later stays as it is.
    pub open spec fn spec_predicted(self, current_time_us: u32, ai_input: Input) -> ClientView {
        ClientView {
            local_player_info: self.spec_local_after(),
            timeline: if self.timeline.top().time_us > current_time_us {
                self.timeline
            } else {
                self.timeline.spec_tick_current_time(
                    self.spec_tick_inputs(ai_input),
                    current_time_us,
                )
            },
            ..self
        }
    }

    /// The client after a queued time response has been worked into the
    /// clock estimate.
    pub open spec fn spec_time_processed(self, time_now_us: u32) -> ClientView {
        match self.queued_time_info {
            Some(t) => ClientView {
                clock: self.clock.spec_process_time_info(t, time_now_us),
                queued_time_info: None,
                ..self
            },
            None => self,
        }
    }

    /// The client after a tick of the server has been worked in: the
    /// timeline is rebased on the snapshot that the server vouches for,
    /// the inputs that the server has seen since are propagated, and the
    /// rules of the server are taken as the truth.
    pub open spec fn spec_server_tick_processed(self, tick: LindenServerTick) -> ClientView {
        ClientView {
            timeline: self.timeline.spec_rebase(tick.lkg_state).spec_propagate_inputs(
                tick.delta_inputs@,
            ),
            last_server_frame_id: Some(tick.latest.frame_id),
            trusted_rule_state: Some(tick.rules_state.fst),
            ..self
        }
    }

    /// The client after one step of its loop: it predicts up to
    /// `current_time_us`, takes from the queue the ticks of the server that
    /// are for frames before its newest, updates its clock, and works in
    /// the last tick that it took.
    pub open spec fn spec_tick_inner(self, current_time_us: u32, ai_input: Input, time_now_us: u32)
        -> ClientView {
        let predicted = self.spec_predicted(current_time_us, ai_input);
        let due = spec_take_due(
            predicted.queued,
            predicted.timeline.top().frame_id,
            None,
        );
        let timed = (ClientView { queued: due.0, ..predicted }).spec_time_processed(time_now_us);
        match due.1 {
            Some(tick) => timed.spec_server_tick_processed(tick),
            None => timed,
        }
    }

    /// The client after as many steps as there are whole ticks between its
    /// last step and `current_time_us`.
    pub open spec fn spec_tick(self, current_time_us: u32, ai_input: Input, time_now_us: u32)
        -> ClientView
        decreases current_time_us - self.last_tick,
    {
        if current_time_us - self.last_tick > TICK_INTERVAL_US {
            let tick_time = (self.last_tick + TICK_INTERVAL_US) as u32;
            (ClientView {
                last_tick: tick_time,
                ..self.spec_tick_inner(tick_time, ai_input, time_now_us)
            }).spec_tick(current_time_us, ai_input, time_now_us)
        } else {
            self
        }
    }

    /// The message that tells the server of the newest frame of the client.
    pub open spec fn spec_client_tick(self) -> ClientTick {
        ClientTick {
            time_us: self.last_tick,
            frame_id: self.timeline.top().frame_id,
            input: match self.local_player_info {
                Some(info) => self.timeline.top().player_inputs.spec_get(info.player_id),
                None => Input::NoInput,
            },
            lobby_ready: self.ready_state,
        }
    }

    /// The round that the server is in, as far as the client knows.
    pub open spec fn spec_round_id(self) -> u8 {
        match self.trusted_rule_state {
            Some(fst) => fst.spec_round_id(),
            None => 0,
        }
    }

    /// The spawn times of the server, as far as the client knows.
    pub open spec fn spec_river_spawn_times(self) -> RiverSpawnTimes {
        match self.trusted_rule_state {
            Some(fst) => fst.spec_river_spawn_times(),
            None => RiverSpawnTimes { start_us: 0 },
        }
    }

    /// The role of a player as far as the client knows.
    pub open spec fn spec_alive(self, id: PlayerId) -> AliveState {
        match self.trusted_rule_state {
            Some(fst) => fst.spec_player_alive(id),
            None => AliveState::Unknown,
        }
    }

    /// Where the player with state `p` stands in the newest snapshot, to the
    /// thousandth of a tile; `None` where its lilypad is gone.
    pub open spec fn spec_precise_of(self, pos: Pos) -> Option<PreciseCoords> {
        match pos {
            Pos::Coord(c) => Some(c.spec_to_precise()),
            Pos::Lillipad(l) => match self.timeline.map.spec_lillipad_screen_x(
                self.timeline.top().rules_state.fst.spec_round_id(),
                self.spec_river_spawn_times(),
                self.timeline.top().time_us,
                l,
            ) {
                Some(x) => Some(PreciseCoords { x: x as i32, y: l.y }),
                None => None,
            },
        }
    }

    /// The moves onto a lilypad that the local player could make: none
    /// unless the server says that the player lives and the newest snapshot
    /// has it at rest.
    pub open spec fn spec_lilly_drawstate(self) -> Option<Seq<LillyOverlay>> {
        match self.local_player_info {
            None => None,
            Some(info) => if self.spec_alive(info.player_id) != AliveState::Alive {
                None
            } else {
                match self.timeline.top().player_states.spec_get(info.player_id) {
                    None => None,
                    Some(p) => if !(p.move_state is Stationary) {
                        None
                    } else {
                        match self.spec_precise_of(p.pos) {
                            None => None,
                            Some(at) => Some(
                                spec_lilly_moves(
                                    at,
                                    self.spec_river_spawn_times(),
                                    self.timeline.top().rules_state.fst.spec_round_id(),
                                    self.timeline.top().time_us,
                                    self.timeline.map,
                                    4,
                                ),
                            ),
                        }
                    },
                }
            },
        }
    }

    /// The top row of the screen, as far as the client knows.
    pub open spec fn spec_screen_y(self) -> i32 {
        match self.trusted_rule_state {
            Some(fst) => fst.spec_screen_y(),
            None => 0,
        }
    }
}

/// The moves onto a lilypad that the first `n` of the four inputs make from
/// `initial_pos`, each with the place of its lilypad.
pub open spec fn spec_lilly_moves(
    initial_pos: PreciseCoords,
    spawn_times: RiverSpawnTimes,
    round_id: u8,
    time_us: u32,
    map: GameMap,
    n: int,
) -> Seq<LillyOverlay>
    decreases n,
{
    if n <= 0 {
        Seq::empty()
    } else {
        let before = spec_lilly_moves(initial_pos, spawn_times, round_id, time_us, map, n - 1);
        let input = ALL_INPUTS[n - 1];
        let applied = initial_pos.spec_apply_input(input);
        match map.spec_lillipad_at_pos(round_id, spawn_times, time_us, applied) {
            Some(lilly) => match map.spec_lillipad_screen_x(round_id, spawn_times, time_us, lilly) {
                Some(x) => before.push(
                    LillyOverlay {
                        precise_coords: PreciseCoords { x: x as i32, y: applied.y },
                        input,
                    },
                ),
                None => before,
            },
            None => before,
        }
    }
}

/// The moves onto a lilypad that a player at `initial_pos` could make.
pub fn get_lilly_moves(
    initial_pos: &PreciseCoords,
    spawn_times: &RiverSpawnTimes,
    round_id: u8,
    time_us: u32,
    map: &GameMap,
) -> (r: Vec<LillyOverlay>)
    ensures
        r@ == spec_lilly_moves(*initial_pos, *spawn_times, round_id, time_us, *map, 4),
{
    let mut moves: Vec<LillyOverlay> = Vec::new();
    let mut n: usize = 0;
    while n < 4
        invariant
            n <= 4,
            moves@ == spec_lilly_moves(
                *initial_pos,
                *spawn_times,
                round_id,
                time_us,
                *map,
                n as int,
            ),
        decreases 4 - n,
    {
        let input = ALL_INPUTS[n];
        let applied = initial_pos.apply_input(input);
        match map.lillipad_at_pos(round_id, spawn_times, time_us, applied) {
            Some(lilly) => {
                match map.get_lillipad_screen_x(round_id, spawn_times, time_us, &lilly) {
                    Some(x) => {
                        moves.push(
                            LillyOverlay {
                                precise_coords: PreciseCoords { x, y: applied.y },
                                input,
                            },
                        );
                    },
                    None => {},
                }
            },
            None => {},
        }
        n = n + 1;
    }
    moves
}

impl Client {
    /// The timeline keeps its ring invariant.
    pub open spec fn wf(&self) -> bool {
        self.timeline.wf()
    }

    /// Tests `wf`. Every client that this module has made passes.
    pub fn is_well_formed(&self) -> (r: bool)
        ensures
            r == self.wf(),
    {
        self.timeline.is_well_formed()
    }

    /// The frame at which the server is taken to be when the client starts:
    /// its frame at the time of its answer, and the ticks that fit into
    /// the latency.
    pub open spec fn spec_estimated_frame(server_frame_id: u32, estimated_latency_us: u32) -> u32 {
        let f = server_frame_id + estimated_latency_us / TICK_INTERVAL_US;
        if f > u32::MAX {
            u32::MAX
        } else {
            f as u32
        }
    }

    /// A client that has just heard from the server where it stands.
    pub fn new(seed: &str, server_frame_id: u32, server_time_us: u32, estimated_latency_us: u32)
        -> (r: Self)
        ensures
            r.wf(),
            r@.timeline == crate::timeline::spec_single(
                r@.timeline.map,
                crate::game::GameState::spec_from_server_parts(
                    GameConfig::spec_default(),
                    Self::spec_estimated_frame(server_frame_id, estimated_latency_us),
                    server_time_us,
                    Seq::empty(),
                    CrossyRulesetFST::spec_start(),
                ),
            ),
            r@.timeline.map.seed == crate::map::spec_seed_of(seed.spec_bytes()),
            r@.clock == ClockEstimate::spec_initial(server_time_us, estimated_latency_us),
            r@.last_tick == server_time_us,
            r@.last_server_frame_id is None,
            r@.local_player_info is None,
            !r@.ready_state,
            r@.trusted_rule_state is None,
            r@.queued_time_info is None,
            r@.queued.len() == 0,
            r@.ai == AiConfig::NoAgent,
    {
        let frame = server_frame_id.saturating_add(estimated_latency_us / TICK_INTERVAL_US);
        let players: Vec<crate::game::PlayerState> = Vec::new();
        assert(players@ =~= Seq::empty());
        Client {
            clock: ClockEstimate::initial(server_time_us, estimated_latency_us),
            timeline: Timeline::from_server_parts(
                GameConfig::default(),
                seed,
                frame,
                server_time_us,
                &players,
                CrossyRulesetFST::start(),
            ),
            last_tick: server_time_us,
            last_server_frame_id: None,
            local_player_info: None,
            ready_state: false,
            trusted_rule_state: None,
            queued_time_info: None,
            queued_server_linden_messages: Vec::new(),
            ai: AiConfig::NoAgent,
        }
    }

    /// The client plays as `player_id` from now on; of the number only the
    /// lowest byte counts.
    pub fn join(&mut self, player_id: u32)
        ensures
            final(self)@ == (ClientView {
                local_player_info: Some(
                    LocalPlayerInfo {
                        player_id: PlayerId((player_id % 256) as u8),
                        buffered_input: Input::NoInput,
                    },
                ),
                ..old(self)@
            }),
    {
        self.local_player_info = Some(
            LocalPlayerInfo {
                player_id: PlayerId((player_id % 256) as u8),
                buffered_input: Input::NoInput,
            },
        );
    }

    pub fn get_ready_state(&self) -> (r: bool)
        ensures
            r == self@.ready_state,
    {
        self.ready_state
    }

    pub fn set_ready_state(&mut self, state: bool)
        ensures
            final(self)@ == (ClientView { ready_state: state, ..old(self)@ }),
    {
        self.ready_state = state;
    }

    /// Keeps an input for the next tick in which the local player can move.
    /// An input is kept only while none is kept already.
    pub fn buffer_input(&mut self, input: Input)
        ensures
            final(self)@ == (ClientView {
                local_player_info: match old(self)@.local_player_info {
                    Some(info) => if input != Input::NoInput && info.buffered_input
                        == Input::NoInput {
                        Some(LocalPlayerInfo { buffered_input: input, ..info })
                    } else {
                        Some(info)
                    },
                    None => None,
                },
                ..old(self)@
            }),
    {
        match self.local_player_info {
            Some(info) => {
                if input != Input::NoInput && info.buffered_input == Input::NoInput {
                    self.local_player_info = Some(
                        LocalPlayerInfo { player_id: info.player_id, buffered_input: input },
                    );
                }
            },
            None => {},
        }
    }

    /// Chooses who decides the inputs of the local player. Without a local
    /// player nothing changes.
    pub fn set_ai(&mut self, ai: AiConfig)
        ensures
            final(self)@ == (ClientView {
                ai: if old(self)@.local_player_info is Some {
                    ai
                } else {
                    old(self)@.ai
                },
                ..old(self)@
            }),
    {
        if self.local_player_info.is_some() {
            self.ai = ai;
        }
    }

    pub fn get_top_frame_id(&self) -> (r: u32)
        requires
            self.wf(),
        ensures
            r == self@.timeline.top().frame_id,
    {
        self.timeline.top_state().frame_id
    }

    /// `-1` without a local player.
    pub fn get_local_player_id(&self) -> (r: i32)
        ensures
            r == match self@.local_player_info {
                Some(info) => info.player_id.0 as int,
                None => -1,
            },
    {
        match self.local_player_info {
            Some(info) => info.player_id.0 as i32,
            None => -1,
        }
    }

    fn predict(&mut self, current_time_us: u32, ai_input: Input)
        requires
            old(self).wf(),
        ensures
            final(self).wf(),
            final(self)@ == old(self)@.spec_predicted(current_time_us, ai_input),
    {
        let top = self.timeline.top_state();
        let mut player_inputs = self.timeline.get_last_player_inputs();
        match self.local_player_info {
            Some(info) => {
                let can_move = match top.get_player(info.player_id) {
                    Some(p) => p.can_move(),
                    None => false,
                };
                let mut local_input = Input::NoInput;
                if can_move {
                    if self.ai != AiConfig::NoAgent {
                        local_input = ai_input;
                    } else {
                        local_input = info.buffered_input;
                        self.local_player_info = Some(
                            LocalPlayerInfo {
                                player_id: info.player_id,
                                buffered_input: Input::NoInput,
                            },
                        );
                    }
                }
                player_inputs.set(info.player_id, local_input);
            },
            None => {},
        }
        if top.time_us <= current_time_us {
            self.timeline.tick_current_time(Some(player_inputs), current_time_us);
        }
    }

    fn take_due(&mut self, frame_id: u32) -> (r: Option<LindenServerTick>)
        ensures
            (final(self).queued_server_linden_messages@, r) == spec_take_due(
                old(self).queued_server_linden_messages@,
                frame_id,
                None,
            ),
            final(self).timeline == old(self).timeline,
            final(self).clock == old(self).clock,
            final(self).last_tick == old(self).last_tick,
            final(self).last_server_frame_id == old(self).last_server_frame_id,
            final(self).local_player_info == old(self).local_player_info,
            final(self).ready_state == old(self).ready_state,
            final(self).trusted_rule_state == old(self).trusted_rule_state,
            final(self).queued_time_info == old(self).queued_time_info,
            final(self).ai == old(self).ai,
    {
        let mut taken: Option<LindenServerTick> = None;
        while self.queued_server_linden_messages.len() > 0
            && self.queued_server_linden_messages[0].latest.frame_id < frame_id
            invariant
                spec_take_due(self.queued_server_linden_messages@, frame_id, taken)
                    == spec_take_due(old(self).queued_server_linden_messages@, frame_id, None),
                self.timeline == old(self).timeline,
                self.clock == old(self).clock,
                self.last_tick == old(self).last_tick,
                self.last_server_frame_id == old(self).last_server_frame_id,
                self.local_player_info == old(self).local_player_info,
                self.ready_state == old(self).ready_state,
                self.trusted_rule_state == old(self).trusted_rule_state,
                self.queued_time_info == old(self).queued_time_info,
                self.ai == old(self).ai,
            decreases self.queued_server_linden_messages.len(),
        {
            let ghost before = self.queued_server_linden_messages@;
            let first = self.queued_server_linden_messages.remove(0);
            assert(self.queued_server_linden_messages@ =~= before.drop_first());
            taken = Some(first);
        }
        taken
    }

    /// Works a queued time response into the clock estimate.
    pub fn process_time_info(&mut self, time_now_us: u32)
        ensures
            final(self)@ == old(self)@.spec_time_processed(time_now_us),
            final(self).timeline == old(self).timeline,
    {
        match self.queued_time_info {
            Some(t) => {
                self.clock = self.clock.process_time_info(&t, time_now_us);
                self.queued_time_info = None;
            },
            None => {},
        }
    }

    /// Works a tick of the server into the timeline. Returns whether the
    /// client had predicted another snapshot than the one that the server
    /// vouches for.
    pub fn process_linden_server_message(&mut self, linden_server_tick: &LindenServerTick) -> (mismatch:
        bool)
        requires
            old(self).wf(),
        ensures
            final(self).wf(),
            final(self)@ == old(self)@.spec_server_tick_processed(*linden_server_tick),
            mismatch == (old(self)@.timeline.spec_try_get_state(
                linden_server_tick.lkg_state.frame_id,
            ) matches Some(s) && s != linden_server_tick.lkg_state),
    {
        let mismatch = self.timeline.rebase(&linden_server_tick.lkg_state);
        self.timeline.propagate_inputs(&linden_server_tick.delta_inputs);
        self.last_server_frame_id = Some(linden_server_tick.latest.frame_id);
        self.trusted_rule_state = Some(linden_server_tick.rules_state.fst);
        mismatch
    }

    /// One step of the loop of the client, for the time `current_time_us`
    /// of the server. `ai_input` is what the agent thinks, `time_now_us`
    /// the clock of the client.
    pub fn tick_inner(&mut self, current_time_us: u32, ai_input: Input, time_now_us: u32)
        requires
            old(self).wf(),
        ensures
            final(self).wf(),
            final(self)@ == old(self)@.spec_tick_inner(current_time_us, ai_input, time_now_us),
    {
        self.predict(current_time_us, ai_input);
        let current_frame_id = self.timeline.top_state().frame_id;
        let due = self.take_due(current_frame_id);
        self.process_time_info(time_now_us);
        match due {
            Some(tick) => {
                self.process_linden_server_message(&tick);
            },
            None => {},
        }
    }

    /// Brings the client up to the time `current_time_us` of the server, a
    /// tick at a time.
    pub fn tick(&mut self, current_time_us: u32, ai_input: Input, time_now_us: u32)
        requires
            old(self).wf(),
        ensures
            final(self).wf(),
            final(self)@ == old(self)@.spec_tick(current_time_us, ai_input, time_now_us),
    {
        while current_time_us.saturating_sub(self.last_tick) > TICK_INTERVAL_US
            invariant
                self.wf(),
                self@.spec_tick(current_time_us, ai_input, time_now_us) == old(self)@.spec_tick(
                    current_time_us,
                    ai_input,
                    time_now_us,
                ),
            decreases current_time_us - self.last_tick,
        {
            let tick_time = self.last_tick + TICK_INTERVAL_US;
            self.tick_inner(tick_time, ai_input, time_now_us);
            self.last_tick = tick_time;
        }
    }

    /// Takes in a message of the server, received at
    /// `client_receive_time_us` on the clock of the client. A time response
    /// waits for the next step; a tick of the server joins the queue; other
    /// messages are ignored.
    pub fn recv_internal(&mut self, message: CrossyMessage, client_receive_time_us: u32)
        ensures
            final(self)@ == match message {
                CrossyMessage::TimeResponsePacket(time_info) => ClientView {
                    queued_time_info: Some(
                        TimeRequestEnd {
                            client_send_time_us: time_info.client_send_time_us,
                            client_receive_time_us,
                            server_receive_time_us: time_info.server_receive_time_us,
                            server_send_time_us: time_info.server_send_time_us,
                        },
                    ),
                    ..old(self)@
                },
                CrossyMessage::LindenServerTick(tick) => ClientView {
                    queued: old(self)@.queued.push(tick),
                    ..old(self)@
                },
                _ => old(self)@,
            },
            final(self).timeline == old(self).timeline,
    {
        match message {
            CrossyMessage::TimeResponsePacket(time_info) => {
                self.queued_time_info = Some(
                    TimeRequestEnd::from_response(&time_info, client_receive_time_us),
                );
            },
            CrossyMessage::LindenServerTick(tick) => {
                self.queued_server_linden_messages.push(tick);
            },
            _ => {},
        }
    }

    /// The message that tells the server of the newest frame of the client.
    pub fn get_client_message_internal(&self) -> (r: CrossyMessage)
        requires
            self.wf(),
        ensures
            r == CrossyMessage::ClientTick(self@.spec_client_tick()),
    {
        let top = self.timeline.top_state();
        let input = match self.local_player_info {
            Some(info) => top.player_inputs.get(info.player_id),
            None => Input::NoInput,
        };
        CrossyMessage::ClientTick(
            ClientTick {
                time_us: self.last_tick,
                frame_id: top.frame_id,
                input,
                lobby_ready: self.ready_state,
            },
        )
    }

    /// Whether a time request is due: at every frame that
    /// `TIME_REQUEST_INTERVAL` divides.
    pub fn should_get_time_request(&self) -> (r: bool)
        requires
            self.wf(),
        ensures
            r == (self@.timeline.top().frame_id % TIME_REQUEST_INTERVAL == 0),
    {
        self.timeline.top_state().frame_id % TIME_REQUEST_INTERVAL == 0
    }

    /// The time request of a client whose clock shows `client_send_time_us`.
    pub fn get_time_request_internal(&self, client_send_time_us: u32) -> (r: CrossyMessage)
        ensures
            r == CrossyMessage::TimeRequestPacket(TimeRequestPacket { client_send_time_us }),
    {
        CrossyMessage::TimeRequestPacket(TimeRequestPacket { client_send_time_us })
    }

    pub fn get_round_id(&self) -> (r: u8)
        ensures
            r == self@.spec_round_id(),
    {
        match self.trusted_rule_state {
            Some(fst) => fst.get_round_id(),
            None => 0,
        }
    }

    pub fn get_river_spawn_times(&self) -> (r: RiverSpawnTimes)
        ensures
            r == self@.spec_river_spawn_times(),
    {
        match self.trusted_rule_state {
            Some(fst) => fst.get_river_spawn_times(),
            None => RiverSpawnTimes::empty(),
        }
    }

    pub fn get_latest_server_rule_state(&self) -> (r: Option<CrossyRulesetFST>)
        ensures
            r == self@.trusted_rule_state,
    {
        self.trusted_rule_state
    }

    /// The role of a player as the server last told it; `Unknown` before
    /// the server has told anything. A player is not shown dead on the
    /// word of the prediction alone.
    pub fn player_alive_state(&self, player_id: u32) -> (r: AliveState)
        ensures
            r == match self@.trusted_rule_state {
                Some(fst) => fst.spec_player_alive(PlayerId((player_id % 256) as u8)),
                None => AliveState::Unknown,
            },
    {
        match self.trusted_rule_state {
            Some(fst) => fst.get_player_alive(PlayerId((player_id % 256) as u8)),
            None => AliveState::Unknown,
        }
    }

    /// Whether row `y` of the round is a river.
    pub fn is_river(&self, y: i32) -> (r: bool)
        ensures
            r == (spec_row_type(self@.timeline.map.seed, self@.spec_round_id(), y) is River),
    {
        match self.timeline.map().get_row(self.get_round_id(), y).row_type {
            RowType::River(_) => true,
            _ => false,
        }
    }

    /// Whether row `y` of the round is a path, the stands or the barrier.
    pub fn is_path(&self, y: i32) -> (r: bool)
        ensures
            r == (spec_row_type(self@.timeline.map.seed, self@.spec_round_id(), y) is Path
                || spec_row_type(self@.timeline.map.seed, self@.spec_round_id(), y) is Stands
                || spec_row_type(self@.timeline.map.seed, self@.spec_round_id(), y)
                is StartingBarrier),
    {
        match self.timeline.map().get_row(self.get_round_id(), y).row_type {
            RowType::Path { .. } => true,
            RowType::Stands => true,
            RowType::StartingBarrier => true,
            _ => false,
        }
    }

    /// The rows of the screen, with their numbers, from the top down.
    pub fn get_rows(&self) -> (r: Vec<Row>)
        ensures
            r@.len() <= crate::map::SCREEN_ROWS,
            forall|k: int|
                0 <= k < r@.len() ==> #[trigger] r@[k] == self@.timeline.map.spec_get_row(
                    self@.spec_round_id(),
                    (self@.spec_screen_y() + k) as i32,
                ),
            self@.spec_screen_y() as int + crate::map::SCREEN_ROWS - 1 <= i32::MAX ==> r@.len()
                == crate::map::SCREEN_ROWS,
    {
        let screen_y = match self.trusted_rule_state {
            Some(fst) => fst.get_screen_y(),
            None => 0,
        };
        self.timeline.map().get_row_view(self.get_round_id(), screen_y)
    }

    /// The moves onto a lilypad that the local player could make, for an overlay.
    pub fn get_lilly_drawstate(&self) -> (r: Option<Vec<LillyOverlay>>)
        requires
            self.wf(),
        ensures
            match r {
                Some(moves) => self@.spec_lilly_drawstate() == Some(moves@),
                None => self@.spec_lilly_drawstate() is None,
            },
    {
        let info = match self.local_player_info {
            Some(info) => info,
            None => {
                return None;
            },
        };
        let alive = match self.trusted_rule_state {
            Some(fst) => fst.get_player_alive(info.player_id),
            None => AliveState::Unknown,
        };
        if alive != AliveState::Alive {
            return None;
        }
        let top = self.timeline.top_state();
        let player = match top.get_player(info.player_id) {
            Some(p) => p,
            None => {
                return None;
            },
        };
        match player.move_state {
            MoveState::Stationary => {},
            MoveState::Moving(_) => {
                return None;
            },
        }
        let map = self.timeline.map();
        let spawn_times = self.get_river_spawn_times();
        let precise = match player.pos {
            Pos::Coord(c) => c.to_precise(),
            Pos::Lillipad(l) => {
                match map.get_lillipad_screen_x(top.get_round_id(), &spawn_times, top.time_us, &l) {
                    Some(x) => PreciseCoords { x, y: l.y },
                    None => {
                        return None;
                    },
                }
            },
        };
        Some(get_lilly_moves(&precise, &spawn_times, top.get_round_id(), top.time_us, &map))
    }
}

} // verus!
