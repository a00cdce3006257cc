//! The timeline: the last snapshots of the world, newest first, with the
//! inputs that led to each. Inputs that arrive late are stored at their
//! frame and the snapshots after it are simulated again.

use vstd::prelude::*;
use vstd::string::StringSliceAdditionalSpecFns;
use crate::crossy_ruleset::CrossyRulesetFST;
use crate::crossy_ruleset::GameConfig;
use crate::game::GameState;
use crate::game::Input;
use crate::game::PlayerInputs;
use crate::game::PlayerState;
use crate::game::Pos;
use crate::game::spec_inputs_or_none;
use crate::map::GameMap;
use crate::player_id_map::PlayerId;
use crate::player_id_map::PlayerIdMap;
use crate::player_id_map::MAX_PLAYERS;

verus! {

/// The length of a tick, in microseconds.
pub const TICK_INTERVAL_US: u32 = 16_666;

/// How many snapshots a timeline keeps.
pub const STATE_BUFFER_SIZE: usize = 128;

/// How many frames ahead of the newest snapshot an input may lie and still
/// be kept for later.
pub const PENDING_HORIZON: usize = 128;

/// The input of one player for one frame, as it travels between peers.
#[derive(Clone, Copy, Debug, PartialEq, Eq, Structural)]
pub struct RemoteInput {
    pub frame_id: u32,
    pub player_id: PlayerId,
    pub input: Input,
}

/// What a server says of one snapshot.
#[derive(Clone, Debug)]
pub struct RemoteTickState {
    pub frame_id: u32,
    pub time_us: u32,
    pub states: Vec<PlayerState>,
}

/// The snapshots of a game and the inputs that wait for frames to come.
#[derive(Debug)]
pub struct Timeline {
    map: GameMap,
    states: Vec<GameState>,
    pending: Vec<PlayerIdMap<Input>>,
}

/// A timeline as the contracts see it. `states[0]` is the newest snapshot;
/// `pending[k]` holds the inputs that wait for the frame `k + 1` after it.
pub struct TimelineView {
    pub map: GameMap,
    pub states: Seq<GameState>,
    pub pending: Seq<PlayerIdMap<Input>>,
}

impl View for Timeline {
    type V = TimelineView;

    closed spec fn view(&self) -> TimelineView {
        TimelineView { map: self.map, states: self.states@, pending: self.pending@ }
    }
}

/// The inputs that wait for a frame for which none have come.
pub open spec fn spec_nothing_pending() -> PlayerIdMap<Input> {
    PlayerIdMap { inner: vstd::array::spec_array_fill_for_copy_type::<Option<Input>, 8>(None) }
}

/// `inputs` with what waits in the first `n` slots of `waiting` put over it.
pub open spec fn spec_merged_upto(inputs: PlayerInputs, waiting: PlayerIdMap<Input>, n: int)
    -> PlayerInputs
    decreases n,
{
    if n <= 0 {
        inputs
    } else {
        let before = spec_merged_upto(inputs, waiting, n - 1);
        match waiting.inner[n - 1] {
            Some(x) => before.spec_set(PlayerId((n - 1) as u8), x),
            None => before,
        }
    }
}

/// The snapshot `j` computed again from the one before it in time, with the
/// inputs, the length of the tick and the edits that the timeline holds for it.
pub open spec fn spec_replay_one(st: Seq<GameState>, map: GameMap, j: int) -> GameState {
    st[j + 1].spec_resimulate(st[j], map)
}

/// The snapshots with the `k` newest computed again, oldest of them first,
/// each from the one before it.
pub open spec fn spec_replay(st: Seq<GameState>, map: GameMap, k: int) -> Seq<GameState>
    decreases k,
{
    if k <= 0 || k >= st.len() {
        st
    } else {
        spec_replay(st.update(k - 1, spec_replay_one(st, map, k - 1)), map, k - 1)
    }
}

/// Neighbours are one frame apart: snapshot `i` is `i` frames older than the newest.
pub open spec fn spec_contiguous(st: Seq<GameState>) -> bool {
    forall|i: int| 0 <= i < st.len() ==> (#[trigger] st[i]).frame_id + i == st[0].frame_id
}

impl TimelineView {
    /// The ring invariant: between one and `STATE_BUFFER_SIZE` snapshots, in
    /// strictly decreasing order of frames with neighbours one frame apart.
    pub open spec fn wf(self) -> bool {
        &&& 1 <= self.states.len() <= STATE_BUFFER_SIZE
        &&& self.pending.len() == PENDING_HORIZON
        &&& spec_contiguous(self.states)
    }

    /// The newest snapshot.
    pub open spec fn top(self) -> GameState {
        self.states[0]
    }

    /// Where the snapshot of frame `frame_id` stands, if the timeline has it.
    pub open spec fn spec_index_of(self, frame_id: u32) -> Option<int> {
        if frame_id <= self.top().frame_id && self.top().frame_id - frame_id < self.states.len() {
            Some(self.top().frame_id - frame_id)
        } else {
            None
        }
    }

    /// The snapshot of frame `frame_id`, if the timeline has it.
    pub open spec fn spec_try_get_state(self, frame_id: u32) -> Option<GameState> {
        match self.spec_index_of(frame_id) {
            Some(i) => Some(self.states[i]),
            None => None,
        }
    }

    /// The timeline one tick later: the newest snapshot is simulated with
    /// `inputs` and with what waited for the new frame, and put in front;
    /// the oldest leaves a full timeline. A timeline whose frames have run
    /// out stays as it is.
    pub open spec fn spec_tick(self, inputs: PlayerInputs, dt_us: u32) -> TimelineView {
        if self.top().frame_id == u32::MAX {
            self
        } else {
            let merged = spec_merged_upto(inputs, self.pending[0], MAX_PLAYERS as int);
            let next = self.top().spec_simulate(merged, dt_us, self.map);
            let kept = if self.states.len() >= STATE_BUFFER_SIZE {
                self.states.take(STATE_BUFFER_SIZE - 1)
            } else {
                self.states
            };
            TimelineView {
                map: self.map,
                states: seq![next] + kept,
                pending: self.pending.drop_first().push(spec_nothing_pending()),
            }
        }
    }

    /// How many ticks of `TICK_INTERVAL_US` lead from the newest snapshot to
    /// the time `target_us` or beyond.
    pub open spec fn spec_ticks_to(self, target_us: u32) -> nat {
        if self.top().time_us >= target_us {
            0
        } else {
            ((target_us - self.top().time_us - 1) / (TICK_INTERVAL_US as int) + 1) as nat
        }
    }

    /// The timeline after at most `fuel` ticks of `TICK_INTERVAL_US`: ticks
    /// are made until the newest snapshot is at `target_us` or later; the
    /// first is made with `inputs`, the others without inputs.
    pub open spec fn spec_tick_until(self, inputs: PlayerInputs, target_us: u32, fuel: nat)
        -> TimelineView
        decreases fuel,
    {
        if fuel == 0 || self.top().time_us >= target_us || self.top().frame_id == u32::MAX {
            self
        } else {
            self.spec_tick(inputs, TICK_INTERVAL_US).spec_tick_until(
                PlayerInputs::spec_new(),
                target_us,
                (fuel - 1) as nat,
            )
        }
    }

    /// The timeline brought up to the time `target_us`.
    pub open spec fn spec_tick_current_time(self, inputs: PlayerInputs, target_us: u32)
        -> TimelineView {
        self.spec_tick_until(inputs, target_us, self.spec_ticks_to(target_us))
    }

    /// Whether the input is for a frame whose snapshot the timeline can
    /// compute again: not later than the newest, and later than the oldest.
    pub open spec fn spec_hits_history(self, d: RemoteInput) -> bool {
        d.player_id.0 < MAX_PLAYERS && d.frame_id <= self.top().frame_id && self.top().frame_id
            - d.frame_id < self.states.len() - 1
    }

    /// Whether the input is for a frame to come, near enough to be kept.
    pub open spec fn spec_hits_pending(self, d: RemoteInput) -> bool {
        d.player_id.0 < MAX_PLAYERS && d.frame_id > self.top().frame_id && d.frame_id
            - self.top().frame_id - 1 < PENDING_HORIZON
    }

    /// The timeline with one input stored at its frame: in the snapshot of
    /// that frame, or among those that wait. An input for a frame that is
    /// too old or too far ahead, or for no player, is dropped.
    pub open spec fn spec_store(self, d: RemoteInput) -> TimelineView {
        if self.spec_hits_history(d) {
            let i = self.top().frame_id - d.frame_id;
            TimelineView {
                states: self.states.update(
                    i,
                    GameState {
                        player_inputs: self.states[i].player_inputs.spec_set(d.player_id, d.input),
                        ..self.states[i]
                    },
                ),
                ..self
            }
        } else if self.spec_hits_pending(d) {
            let k = d.frame_id - self.top().frame_id - 1;
            TimelineView {
                pending: self.pending.update(k, self.pending[k].spec_set(d.player_id, d.input)),
                ..self
            }
        } else {
            self
        }
    }

    /// The timeline with the first `n` inputs stored, in their order.
    pub open spec fn spec_store_all(self, ds: Seq<RemoteInput>, n: int) -> TimelineView
        decreases n,
    {
        if n <= 0 {
            self
        } else {
            self.spec_store_all(ds, n - 1).spec_store(ds[n - 1])
        }
    }

    /// How many of the newest snapshots the first `n` inputs reach: one more
    /// than the distance from the newest snapshot to the oldest frame that
    /// one of them changes; 0 where none changes a snapshot.
    pub open spec fn spec_replay_depth(self, ds: Seq<RemoteInput>, n: int) -> int
        decreases n,
    {
        if n <= 0 {
            0
        } else {
            let before = self.spec_replay_depth(ds, n - 1);
            if self.spec_hits_history(ds[n - 1]) {
                let reach = self.top().frame_id - ds[n - 1].frame_id + 1;
                if reach > before {
                    reach
                } else {
                    before
                }
            } else {
                before
            }
        }
    }

    /// How many of the first `n` inputs are dropped.
    pub open spec fn spec_dropped(self, ds: Seq<RemoteInput>, n: int) -> int
        decreases n,
    {
        if n <= 0 {
            0
        } else {
            self.spec_dropped(ds, n - 1) + if self.spec_hits_history(ds[n - 1])
                || self.spec_hits_pending(ds[n - 1]) {
                0int
            } else {
                1int
            }
        }
    }

    /// The timeline after the inputs `ds` have been propagated: each is
    /// stored at its frame, and the snapshots from the oldest changed frame
    /// to the newest are computed again.
    pub open spec fn spec_propagate_inputs(self, ds: Seq<RemoteInput>) -> TimelineView {
        let stored = self.spec_store_all(ds, ds.len() as int);
        TimelineView {
            states: spec_replay(
                stored.states,
                self.map,
                self.spec_replay_depth(ds, ds.len() as int),
            ),
            ..stored
        }
    }

    /// The timeline rebased on the snapshot `lkg`: where the timeline has a
    /// different snapshot for that frame, `lkg` takes its place and the
    /// snapshots after it are computed again from it; else nothing changes.
    pub open spec fn spec_rebase(self, lkg: GameState) -> TimelineView {
        match self.spec_index_of(lkg.frame_id) {
            Some(i) => if self.states[i] == lkg {
                self
            } else {
                TimelineView { states: spec_replay(self.states.update(i, lkg), self.map, i), ..self }
            },
            None => self,
        }
    }

    /// The timeline with another newest snapshot.
    pub open spec fn spec_with_top(self, top: GameState) -> TimelineView {
        TimelineView { states: self.states.update(0, top), ..self }
    }
}

/// The timeline that starts from one snapshot, with nothing pending.
pub open spec fn spec_single(map: GameMap, state: GameState) -> TimelineView {
    TimelineView {
        map,
        states: seq![state],
        pending: Seq::new(PENDING_HORIZON as nat, |k: int| spec_nothing_pending()),
    }
}

fn nothing_pending() -> (r: PlayerIdMap<Input>)
    ensures
        r == spec_nothing_pending(),
{
    PlayerIdMap { inner: [None;8] }
}

fn no_pending_inputs() -> (r: Vec<PlayerIdMap<Input>>)
    ensures
        r@ == Seq::new(PENDING_HORIZON as nat, |k: int| spec_nothing_pending()),
{
    let mut pending: Vec<PlayerIdMap<Input>> = Vec::new();
    let mut k: usize = 0;
    while k < PENDING_HORIZON
        invariant
            k <= PENDING_HORIZON,
            pending@.len() == k,
            forall|j: int| 0 <= j < k ==> pending@[j] == spec_nothing_pending(),
        decreases PENDING_HORIZON - k,
    {
        pending.push(nothing_pending());
        k = k + 1;
    }
    assert(pending@ =~= Seq::new(PENDING_HORIZON as nat, |k: int| spec_nothing_pending()));
    pending
}

/// Puts what waits over the inputs.
pub fn merge_pending(inputs: &PlayerInputs, waiting: &PlayerIdMap<Input>) -> (r: PlayerInputs)
    ensures
        r == spec_merged_upto(*inputs, *waiting, MAX_PLAYERS as int),
{
    let mut out = *inputs;
    let mut i: usize = 0;
    while i < MAX_PLAYERS
        invariant
            i <= MAX_PLAYERS,
            out == spec_merged_upto(*inputs, *waiting, i as int),
        decreases MAX_PLAYERS - i,
    {
        match waiting.get_slot(i) {
            Some(x) => {
                out.set(PlayerId(i as u8), x);
            },
            None => {},
        }
        i = i + 1;
    }
    out
}

impl Timeline {
    /// Whether the timeline keeps the ring invariant.
    pub open spec fn wf(&self) -> bool {
        self@.wf()
    }

    fn single(map: GameMap, state: GameState) -> (r: Self)
        ensures
            r@ == spec_single(map, state),
            r.wf(),
    {
        let mut states: Vec<GameState> = Vec::new();
        states.push(state);
        assert(states@ =~= seq![state]);
        Timeline { map, states, pending: no_pending_inputs() }
    }

    /// The timeline of a new game: one snapshot at frame 0.
    pub fn from_seed(config: GameConfig, seed: &str) -> (r: Self)
        ensures
            r@ == spec_single(r@.map, GameState::spec_new(config)),
            r@.map.seed == crate::map::spec_seed_of(seed.spec_bytes()),
            r.wf(),
    {
        Self::single(GameMap::new(seed), GameState::new(config))
    }

    /// The timeline of a client that joins: one snapshot, as the server
    /// described it.
    pub fn from_server_parts(
        config: GameConfig,
        seed: &str,
        frame_id: u32,
        time_us: u32,
        players: &Vec<PlayerState>,
        fst: CrossyRulesetFST,
    ) -> (r: Self)
        ensures
            r@ == spec_single(
                r@.map,
                GameState::spec_from_server_parts(config, frame_id, time_us, players@, fst),
            ),
            r@.map.seed == crate::map::spec_seed_of(seed.spec_bytes()),
            r.wf(),
    {
        Self::single(
            GameMap::new(seed),
            GameState::from_server_parts(config, frame_id, time_us, players, fst),
        )
    }

    /// As `from_server_parts`, for a map whose seed is known as a number.
    pub fn from_server_parts_exact_seed(
        config: GameConfig,
        seed: u32,
        frame_id: u32,
        time_us: u32,
        players: &Vec<PlayerState>,
        fst: CrossyRulesetFST,
    ) -> (r: Self)
        ensures
            r@ == spec_single(
                GameMap { seed },
                GameState::spec_from_server_parts(config, frame_id, time_us, players@, fst),
            ),
            r.wf(),
    {
        Self::single(
            GameMap::exact_seed(seed),
            GameState::from_server_parts(config, frame_id, time_us, players, fst),
        )
    }

    /// Tests the ring invariant. Every timeline that this module has made
    /// passes.
    pub fn is_well_formed(&self) -> (r: bool)
        ensures
            r == self.wf(),
    {
        let n = self.states.len();
        if n < 1 || n > STATE_BUFFER_SIZE || self.pending.len() != PENDING_HORIZON {
            return false;
        }
        let top = self.states[0].frame_id;
        let mut i: usize = 0;
        while i < n
            invariant
                i <= n,
                n == self.states@.len(),
                1 <= n <= STATE_BUFFER_SIZE,
                top == self.states@[0].frame_id,
                forall|k: int| 0 <= k < i ==> (#[trigger] self.states@[k]).frame_id + k == top,
            decreases n - i,
        {
            if self.states[i].frame_id as u64 + i as u64 != top as u64 {
                return false;
            }
            i = i + 1;
        }
        true
    }

    /// The map of the game.
    pub fn map(&self) -> (r: GameMap)
        ensures
            r == self@.map,
    {
        self.map
    }

    /// The newest snapshot.
    pub fn top_state(&self) -> (r: GameState)
        requires
            self.wf(),
        ensures
            r == self@.top(),
    {
        self.states[0]
    }

    /// The number of snapshots.
    pub fn len(&self) -> (r: usize)
        ensures
            r == self@.states.len(),
    {
        self.states.len()
    }

    /// The inputs that led to the newest snapshot.
    pub fn get_last_player_inputs(&self) -> (r: PlayerInputs)
        requires
            self.wf(),
        ensures
            r == self@.top().player_inputs,
    {
        self.states[0].player_inputs
    }

    /// The snapshot of frame `frame_id`, if the timeline has it.
    pub fn try_get_state(&self, frame_id: u32) -> (r: Option<GameState>)
        requires
            self.wf(),
        ensures
            r == self@.spec_try_get_state(frame_id),
            r matches Some(s) ==> s.frame_id == frame_id,
    {
        let top = self.states[0].frame_id;
        if frame_id <= top && ((top - frame_id) as usize) < self.states.len() {
            Some(self.states[(top - frame_id) as usize])
        } else {
            None
        }
    }

    /// Advances the timeline by one tick of `dt_us` microseconds.
    pub fn tick(&mut self, inputs: Option<PlayerInputs>, dt_us: u32)
        requires
            old(self).wf(),
        ensures
            final(self)@ == old(self)@.spec_tick(spec_inputs_or_none(inputs), dt_us),
            final(self).wf(),
    {
        let top = self.states[0];
        if top.frame_id == u32::MAX {
            return ;
        }
        let given = match inputs {
            Some(i) => i,
            None => PlayerInputs::new(),
        };
        let merged = merge_pending(&given, &self.pending[0]);
        let next = top.simulate(Some(merged), dt_us, &self.map);
        if self.states.len() >= STATE_BUFFER_SIZE {
            self.states.truncate(STATE_BUFFER_SIZE - 1);
        }
        self.states.insert(0, next);
        self.pending.remove(0);
        self.pending.push(nothing_pending());
        proof {
            let kept = if old(self)@.states.len() >= STATE_BUFFER_SIZE {
                old(self)@.states.take(STATE_BUFFER_SIZE - 1)
            } else {
                old(self)@.states
            };
            assert(self.states@ =~= seq![next] + kept);
            assert(self.pending@ =~= old(self)@.pending.drop_first().push(spec_nothing_pending()));
            assert forall|i: int| 0 <= i < self.states@.len() implies (
            #[trigger] self.states@[i]).frame_id + i == self.states@[0].frame_id by {
                if i > 0 {
                    assert(self.states@[i] == old(self)@.states[i - 1]);
                }
            }
        }
    }

    /// Brings the timeline up to `current_time_us`: ticks of
    /// `TICK_INTERVAL_US`, the first with `inputs`, until the newest snapshot
    /// is at that time or later.
    pub fn tick_current_time(&mut self, inputs: Option<PlayerInputs>, current_time_us: u32)
        requires
            old(self).wf(),
        ensures
            final(self)@ == old(self)@.spec_tick_current_time(
                spec_inputs_or_none(inputs),
                current_time_us,
            ),
            final(self).wf(),
    {
        let start = self.states[0].time_us;
        let mut fuel: u32 = if start >= current_time_us {
            0
        } else {
            (current_time_us - start - 1) / TICK_INTERVAL_US + 1
        };
        let mut next_inputs = inputs;
        while fuel > 0 && self.states[0].time_us < current_time_us && self.states[0].frame_id
            < u32::MAX
            invariant
                self.wf(),
                self@.spec_tick_until(
                    spec_inputs_or_none(next_inputs),
                    current_time_us,
                    fuel as nat,
                ) == old(self)@.spec_tick_current_time(
                    spec_inputs_or_none(inputs),
                    current_time_us,
                ),
            decreases fuel,
        {
            self.tick(next_inputs, TICK_INTERVAL_US);
            next_inputs = None;
            fuel = fuel - 1;
        }
    }

    /// Puts a new player into the newest snapshot.
    pub fn add_player(&mut self, id: PlayerId, pos: Pos)
        requires
            old(self).wf(),
        ensures
            final(self)@ == old(self)@.spec_with_top(old(self)@.top().spec_add_player(id, pos)),
            final(self).wf(),
    {
        let top = self.states[0].add_player(id, pos);
        self.states.set(0, top);
    }

    /// Takes a player out of the newest snapshot.
    pub fn remove_player(&mut self, id: PlayerId)
        requires
            old(self).wf(),
        ensures
            final(self)@ == old(self)@.spec_with_top(old(self)@.top().spec_remove_player(id)),
            final(self).wf(),
    {
        let top = self.states[0].remove_player(id);
        self.states.set(0, top);
    }

    /// Records in the newest snapshot whether a player is ready.
    pub fn set_player_ready(&mut self, id: PlayerId, ready: bool)
        requires
            old(self).wf(),
        ensures
            final(self)@ == old(self)@.spec_with_top(
                old(self)@.top().spec_set_player_ready(id, ready),
            ),
            final(self).wf(),
    {
        let top = self.states[0].set_player_ready(id, ready);
        self.states.set(0, top);
    }

    /// Computes the `k` newest snapshots again.
    fn replay(&mut self, k: usize)
        requires
            old(self).wf(),
            k < old(self)@.states.len(),
        ensures
            final(self)@ == (TimelineView {
                states: spec_replay(old(self)@.states, old(self)@.map, k as int),
                ..old(self)@
            }),
            final(self).wf(),
            final(self)@.top().frame_id == old(self)@.top().frame_id,
    {
        let mut j: usize = k;
        while j > 0
            invariant
                j <= k,
                k < self.states@.len(),
                self.wf(),
                self.map == old(self).map,
                self.pending@ == old(self).pending@,
                self.states@[0].frame_id == old(self).states@[0].frame_id,
                spec_replay(self.states@, self.map, j as int) == spec_replay(
                    old(self)@.states,
                    old(self)@.map,
                    k as int,
                ),
            decreases j,
        {
            let before = self.states[j];
            let now = self.states[j - 1];
            let ghost st = self.states@;
            assert(st[j as int].frame_id + j == st[0].frame_id);
            assert(st[j - 1].frame_id + (j - 1) == st[0].frame_id);
            let again = before.resimulate(&now, &self.map);
            self.states.set(j - 1, again);
            proof {
                assert(again == spec_replay_one(st, self.map, j - 1));
                assert(self.states@ == st.update(j - 1, again));
                assert forall|i: int| 0 <= i < self.states@.len() implies (
                #[trigger] self.states@[i]).frame_id + i == self.states@[0].frame_id by {
                    assert(st[i].frame_id + i == st[0].frame_id);
                }
            }
            j = j - 1;
        }
    }

    /// Stores one input at its frame. Returns how many snapshots it reaches,
    /// and whether it was dropped.
    fn store(&mut self, d: &RemoteInput) -> (r: (usize, bool))
        requires
            old(self).wf(),
        ensures
            final(self)@ == old(self)@.spec_store(*d),
            final(self).wf(),
            final(self)@.top().frame_id == old(self)@.top().frame_id,
            final(self)@.states.len() == old(self)@.states.len(),
            r.0 == if old(self)@.spec_hits_history(*d) {
                old(self)@.top().frame_id - d.frame_id + 1
            } else {
                0
            },
            r.1 == !(old(self)@.spec_hits_history(*d) || old(self)@.spec_hits_pending(*d)),
    {
        let top = self.states[0].frame_id;
        if (d.player_id.0 as usize) >= MAX_PLAYERS {
            return (0, true);
        }
        if d.frame_id <= top {
            let back = (top - d.frame_id) as usize;
            if back < self.states.len() - 1 {
                let mut s = self.states[back];
                s.player_inputs.set(d.player_id, d.input);
                let ghost st = self.states@;
                self.states.set(back, s);
                proof {
                    assert forall|i: int| 0 <= i < self.states@.len() implies (
                    #[trigger] self.states@[i]).frame_id + i == self.states@[0].frame_id by {
                        assert(st[i].frame_id + i == st[0].frame_id);
                    }
                }
                return (back + 1, false);
            }
            return (0, true);
        }
        let ahead = (d.frame_id - top - 1) as usize;
        if ahead < PENDING_HORIZON {
            let mut w = self.pending[ahead];
            w.set(d.player_id, d.input);
            self.pending.set(ahead, w);
            return (0, false);
        }
        (0, true)
    }

    /// Stores late inputs at their frames and computes again what follows
    /// from them. Inputs for frames to come wait until the timeline reaches
    /// their frame. Returns how many inputs were dropped because their frame
    /// is too old, or too far ahead, or because they name no player.
    pub fn propagate_inputs(&mut self, delta_inputs: &Vec<RemoteInput>) -> (dropped: usize)
        requires
            old(self).wf(),
        ensures
            final(self)@ == old(self)@.spec_propagate_inputs(delta_inputs@),
            final(self).wf(),
            dropped == old(self)@.spec_dropped(delta_inputs@, delta_inputs@.len() as int),
    {
        let mut depth: usize = 0;
        let mut dropped: usize = 0;
        let mut n: usize = 0;
        while n < delta_inputs.len()
            invariant
                n <= delta_inputs.len(),
                self.wf(),
                self@ == old(self)@.spec_store_all(delta_inputs@, n as int),
                self@.top().frame_id == old(self)@.top().frame_id,
                self@.states.len() == old(self)@.states.len(),
                self@.map == old(self)@.map,
                depth == old(self)@.spec_replay_depth(delta_inputs@, n as int),
                depth < self@.states.len(),
                dropped == old(self)@.spec_dropped(delta_inputs@, n as int),
                dropped <= n,
            decreases delta_inputs.len() - n,
        {
            let (reach, lost) = self.store(&delta_inputs[n]);
            if reach > depth {
                depth = reach;
            }
            if lost {
                dropped = dropped + 1;
            }
            n = n + 1;
        }
        self.replay(depth);
        dropped
    }

    /// Rebases the timeline on a snapshot that the server vouches for.
    /// Returns whether the timeline had a different snapshot for that frame.
    pub fn rebase(&mut self, lkg_state: &GameState) -> (mismatch: bool)
        requires
            old(self).wf(),
        ensures
            final(self)@ == old(self)@.spec_rebase(*lkg_state),
            final(self).wf(),
            final(self)@.top().frame_id == old(self)@.top().frame_id,
            mismatch == (old(self)@.spec_try_get_state(lkg_state.frame_id) matches Some(s) && s
                != *lkg_state),
    {
        let top = self.states[0].frame_id;
        if lkg_state.frame_id <= top && ((top - lkg_state.frame_id) as usize) < self.states.len() {
            let i = (top - lkg_state.frame_id) as usize;
            if self.states[i].same_as(lkg_state) {
                return false;
            }
            let ghost st = self.states@;
            assert(st[i as int].frame_id + i == st[0].frame_id);
            self.states.set(i, *lkg_state);
            proof {
                assert forall|j: int| 0 <= j < self.states@.len() implies (
                #[trigger] self.states@[j]).frame_id + j == self.states@[0].frame_id by {
                    assert(st[j].frame_id + j == st[0].frame_id);
                }
            }
            self.replay(i);
            return true;
        }
        false
    }
}

/// The inputs of the first `n` player slots that led to the snapshot `s`,
/// as they travel between peers; slots without an input are left out.
pub open spec fn spec_inputs_of(s: GameState, n: int) -> Seq<RemoteInput>
    decreases n,
{
    if n <= 0 {
        Seq::empty()
    } else if s.player_inputs.inputs[n - 1] == Input::NoInput {
        spec_inputs_of(s, n - 1)
    } else {
        spec_inputs_of(s, n - 1).push(
            RemoteInput {
                frame_id: s.frame_id,
                player_id: PlayerId((n - 1) as u8),
                input: s.player_inputs.inputs[n - 1],
            },
        )
    }
}

impl TimelineView {
    /// The oldest snapshot.
    pub open spec fn oldest(self) -> GameState {
        self.states[self.states.len() - 1]
    }

    /// The inputs of the `k` oldest snapshots that are for frames after
    /// `frame_id`, oldest frame first.
    pub open spec fn spec_inputs_since(self, frame_id: u32, k: int) -> Seq<RemoteInput>
        decreases k,
    {
        if k <= 0 || k > self.states.len() {
            Seq::empty()
        } else {
            let s = self.states[self.states.len() - k];
            self.spec_inputs_since(frame_id, k - 1) + if s.frame_id > frame_id {
                spec_inputs_of(s, MAX_PLAYERS as int)
            } else {
                Seq::empty()
            }
        }
    }
}

/// The inputs that led to a snapshot, as they travel between peers.
pub fn inputs_of(s: &GameState) -> (r: Vec<RemoteInput>)
    ensures
        r@ == spec_inputs_of(*s, MAX_PLAYERS as int),
{
    let mut out: Vec<RemoteInput> = Vec::new();
    let mut i: usize = 0;
    while i < MAX_PLAYERS
        invariant
            i <= MAX_PLAYERS,
            out@ == spec_inputs_of(*s, i as int),
        decreases MAX_PLAYERS - i,
    {
        let input = s.player_inputs.inputs[i];
        if input != Input::NoInput {
            out.push(RemoteInput { frame_id: s.frame_id, player_id: PlayerId(i as u8), input });
        }
        i = i + 1;
    }
    out
}

impl Timeline {
    /// The oldest snapshot.
    pub fn oldest_state(&self) -> (r: GameState)
        requires
            self.wf(),
        ensures
            r == self@.oldest(),
    {
        self.states[self.states.len() - 1]
    }

    /// All inputs that the timeline holds for frames after `frame_id`,
    /// oldest frame first.
    pub fn inputs_since(&self, frame_id: u32) -> (r: Vec<RemoteInput>)
        requires
            self.wf(),
        ensures
            r@ == self@.spec_inputs_since(frame_id, self@.states.len() as int),
    {
        let mut out: Vec<RemoteInput> = Vec::new();
        let n = self.states.len();
        let mut k: usize = 0;
        while k < n
            invariant
                k <= n,
                n == self.states@.len(),
                out@ == self@.spec_inputs_since(frame_id, k as int),
            decreases n - k,
        {
            let s = self.states[n - k - 1];
            if s.frame_id > frame_id {
                let mut more = inputs_of(&s);
                out.append(&mut more);
            } else {
                assert(out@ + Seq::<RemoteInput>::empty() =~= out@);
            }
            k = k + 1;
        }
        out
    }
}

} // verus!
