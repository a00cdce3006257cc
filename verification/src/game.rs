//! Positions, inputs and the per-player state of the simulation.

use vstd::prelude::*;
use crate::crossy_ruleset::CrossyRulesetFST;
use crate::crossy_ruleset::GameConfig;
use crate::crossy_ruleset::RulesState;
use crate::crossy_ruleset::TickContext;
use crate::crossy_ruleset::LOBBY_ROW;
use crate::crossy_ruleset::START_ROW;
use crate::map::GameMap;
use crate::movement::apply_all_moves;
use crate::movement::line_up;
use crate::movement::spec_holds;
use crate::movement::spec_lined_up_upto;
use crate::movement::spec_moves_upto;
use crate::movement::spec_timers_upto;
use crate::movement::tick_all_timers;
use crate::movement::MoveContext;
use crate::player_id_map::PlayerId;
use crate::player_id_map::PlayerIdMap;
use crate::player_id_map::MAX_PLAYERS;

verus! {

/// Width of the playing field in tiles; columns run from 0 to `FIELD_WIDTH - 1`.
pub const FIELD_WIDTH: i32 = 20;

/// Thousandths of a tile per tile, the unit of `PreciseCoords::x`.
pub const MILLI: i32 = 1000;

/// How long a move from one tile to the next takes, in microseconds.
pub const MOVE_DUR_US: u32 = 116_662;

/// How long a player rests after a move before it can move again, in microseconds.
pub const MOVE_COOLDOWN_US: u32 = 50_000;

/// The command of one player for one tick.
#[derive(Clone, Copy, Debug, PartialEq, Eq, Structural)]
pub enum Input {
    NoInput,
    Up,
    Down,
    Left,
    Right,
}

/// The four moves, in the order in which they are tried.
pub const ALL_INPUTS: [Input; 4] = [Input::Up, Input::Left, Input::Right, Input::Down];

/// A tile of the grid. Rows grow downwards: `Up` lowers `y`.
#[derive(Clone, Copy, Debug, PartialEq, Eq, Structural)]
pub struct CoordPos {
    pub x: i32,
    pub y: i32,
}

/// A position within a row, with `x` in thousandths of a tile.
#[derive(Clone, Copy, Debug, PartialEq, Eq, Structural)]
pub struct PreciseCoords {
    pub x: i32,
    pub y: i32,
}

/// Names one lilypad of one river row.
#[derive(Clone, Copy, Debug, PartialEq, Eq, Structural)]
pub struct LillipadId {
    pub id: u8,
    pub y: i32,
}

/// Where a player stands: on a tile, or on a lilypad that carries it.
#[derive(Clone, Copy, Debug, PartialEq, Eq, Structural)]
pub enum Pos {
    Coord(CoordPos),
    Lillipad(LillipadId),
}

/// A move in progress: where it ends and how long it still takes.
#[derive(Clone, Copy, Debug, PartialEq, Eq, Structural)]
pub struct MovingState {
    pub remaining_us: u32,
    pub target: Pos,
}

/// Whether a player rests or is between two positions.
#[derive(Clone, Copy, Debug, PartialEq, Eq, Structural)]
pub enum MoveState {
    Stationary,
    Moving(MovingState),
}

/// One player as the simulation sees it.
#[derive(Clone, Copy, Debug, PartialEq, Eq, Structural)]
pub struct PlayerState {
    pub id: PlayerId,
    pub pos: Pos,
    pub move_state: MoveState,
    pub move_cooldown: u32,
    pub ready: bool,
    pub pushing: Option<PlayerId>,
    pub pushed_by: Option<PlayerId>,
}

/// A player as a front end draws it: where it is and where it moves to, in
/// thousandths of a tile, and whom it pushes or is pushed by (`-1` for nobody).
#[derive(Clone, Copy, Debug, PartialEq, Eq, Structural)]
pub struct PlayerStatePublic {
    pub id: u8,
    pub x: i32,
    pub y: i32,
    pub moving: bool,
    pub remaining_move_dur: u32,
    pub t_x: i32,
    pub t_y: i32,
    pub pushing: i32,
    pub pushed_by: i32,
}

/// The inputs of all players for one tick.
#[derive(Clone, Copy, Debug)]
pub struct PlayerInputs {
    pub inputs: [Input; 8],
}

/// `a - b`, or 0 where `b` exceeds `a`.
pub open spec fn sat_sub(a: u32, b: u32) -> u32 {
    if a >= b {
        (a - b) as u32
    } else {
        0
    }
}

impl Input {
    /// The change of column that the input asks for.
    pub open spec fn dx(self) -> int {
        match self {
            Input::Left => -1,
            Input::Right => 1,
            _ => 0,
        }
    }

    /// The change of row that the input asks for.
    pub open spec fn dy(self) -> int {
        match self {
            Input::Up => -1,
            Input::Down => 1,
            _ => 0,
        }
    }
}

impl CoordPos {
    pub fn new(x: i32, y: i32) -> (r: Self)
        ensures
            r == (CoordPos { x, y }),
    {
        CoordPos { x, y }
    }

    /// The neighbouring tile in the direction of `input`; the tile itself for
    /// `Input::NoInput`, and where the neighbour's coordinate would leave `i32`.
    pub open spec fn spec_apply_input(self, input: Input) -> CoordPos {
        let nx = self.x + input.dx();
        let ny = self.y + input.dy();
        if i32::MIN <= nx <= i32::MAX && i32::MIN <= ny <= i32::MAX {
            CoordPos { x: nx as i32, y: ny as i32 }
        } else {
            self
        }
    }

    pub fn apply_input(&self, input: Input) -> (r: CoordPos)
        ensures
            r == self.spec_apply_input(input),
    {
        match input {
            Input::NoInput => *self,
            Input::Up => if self.y > i32::MIN {
                CoordPos { x: self.x, y: self.y - 1 }
            } else {
                *self
            },
            Input::Down => if self.y < i32::MAX {
                CoordPos { x: self.x, y: self.y + 1 }
            } else {
                *self
            },
            Input::Left => if self.x > i32::MIN {
                CoordPos { x: self.x - 1, y: self.y }
            } else {
                *self
            },
            Input::Right => if self.x < i32::MAX {
                CoordPos { x: self.x + 1, y: self.y }
            } else {
                *self
            },
        }
    }

    /// Whether the column lies on the playing field.
    pub open spec fn spec_on_field(self) -> bool {
        0 <= self.x < FIELD_WIDTH
    }

    pub fn on_field(&self) -> (r: bool)
        ensures
            r == self.spec_on_field(),
    {
        0 <= self.x && self.x < FIELD_WIDTH
    }

    /// The left edge of the tile, in thousandths; clamped to `i32`.
    pub open spec fn spec_to_precise(self) -> PreciseCoords {
        let x = self.x * MILLI;
        PreciseCoords {
            x: if x > i32::MAX {
                i32::MAX
            } else if x < i32::MIN {
                i32::MIN
            } else {
                x as i32
            },
            y: self.y,
        }
    }

    pub fn to_precise(&self) -> (r: PreciseCoords)
        ensures
            r == self.spec_to_precise(),
    {
        let x: i64 = self.x as i64 * MILLI as i64;
        let cx: i32 = if x > i32::MAX as i64 {
            i32::MAX
        } else if x < i32::MIN as i64 {
            i32::MIN
        } else {
            x as i32
        };
        PreciseCoords { x: cx, y: self.y }
    }
}

impl PreciseCoords {
    /// The position one tile further in the direction of `input`; unchanged
    /// for `Input::NoInput`, and where a coordinate would leave `i32`.
    pub open spec fn spec_apply_input(self, input: Input) -> PreciseCoords {
        let nx = self.x + input.dx() * MILLI;
        let ny = self.y + input.dy();
        if i32::MIN <= nx <= i32::MAX && i32::MIN <= ny <= i32::MAX {
            PreciseCoords { x: nx as i32, y: ny as i32 }
        } else {
            self
        }
    }

    pub fn apply_input(&self, input: Input) -> (r: PreciseCoords)
        ensures
            r == self.spec_apply_input(input),
    {
        match input {
            Input::NoInput => *self,
            Input::Up => if self.y > i32::MIN {
                PreciseCoords { x: self.x, y: self.y - 1 }
            } else {
                *self
            },
            Input::Down => if self.y < i32::MAX {
                PreciseCoords { x: self.x, y: self.y + 1 }
            } else {
                *self
            },
            Input::Left => if self.x >= i32::MIN + MILLI {
                PreciseCoords { x: self.x - MILLI, y: self.y }
            } else {
                *self
            },
            Input::Right => if self.x <= i32::MAX - MILLI {
                PreciseCoords { x: self.x + MILLI, y: self.y }
            } else {
                *self
            },
        }
    }

    /// The tile whose column is nearest to `x`.
    pub open spec fn spec_to_coord(self) -> CoordPos {
        CoordPos { x: ((self.x + 500) / (MILLI as int)) as i32, y: self.y }
    }

    pub fn to_coord(&self) -> (r: CoordPos)
        ensures
            r == self.spec_to_coord(),
    {
        let shifted: i64 = self.x as i64 + 500;
        let q: i64 = if shifted >= 0 {
            shifted / 1000
        } else {
            -((999 - shifted) / 1000)
        };
        assert(q == (self.x + 500) / 1000) by {
            if shifted < 0 {
                let m = 999 - shifted;
                assert(m / 1000 == -(shifted / 1000)) by (nonlinear_arith)
                    requires
                        m == 999 - shifted,
                        shifted < 0,
                ;
            }
        }
        CoordPos { x: q as i32, y: self.y }
    }
}

impl Pos {
    pub fn new_coord(x: i32, y: i32) -> (r: Self)
        ensures
            r == Pos::Coord(CoordPos { x, y }),
    {
        Pos::Coord(CoordPos { x, y })
    }

    /// The row of the position.
    pub open spec fn spec_y(self) -> i32 {
        match self {
            Pos::Coord(c) => c.y,
            Pos::Lillipad(l) => l.y,
        }
    }

    pub fn y(&self) -> (r: i32)
        ensures
            r == self.spec_y(),
    {
        match self {
            Pos::Coord(c) => c.y,
            Pos::Lillipad(l) => l.y,
        }
    }
}

impl PlayerState {
    /// A player that rests at `pos` and may move at once.
    pub open spec fn spec_new(id: PlayerId, pos: Pos) -> PlayerState {
        PlayerState {
            id,
            pos,
            move_state: MoveState::Stationary,
            move_cooldown: 0,
            ready: false,
            pushing: None,
            pushed_by: None,
        }
    }

    pub fn new(id: PlayerId, pos: Pos) -> (r: Self)
        ensures
            r == Self::spec_new(id, pos),
    {
        PlayerState {
            id,
            pos,
            move_state: MoveState::Stationary,
            move_cooldown: 0,
            ready: false,
            pushing: None,
            pushed_by: None,
        }
    }

    /// A player can start a move when it rests and its cooldown has run out.
    pub open spec fn spec_can_move(self) -> bool {
        self.move_state is Stationary && self.move_cooldown == 0
    }

    pub fn can_move(&self) -> (r: bool)
        ensures
            r == self.spec_can_move(),
    {
        match self.move_state {
            MoveState::Stationary => self.move_cooldown == 0,
            MoveState::Moving(_) => false,
        }
    }

    /// The player after `dt_us` microseconds have passed: cooldown and move
    /// both run down, stopping at 0; a move that reaches 0 puts the player at
    /// its target and starts the cooldown. Push marks last one tick.
    pub open spec fn spec_tick_timers(self, dt_us: u32) -> PlayerState {
        let cooled = PlayerState {
            move_cooldown: sat_sub(self.move_cooldown, dt_us),
            pushing: None,
            pushed_by: None,
            ..self
        };
        match self.move_state {
            MoveState::Stationary => cooled,
            MoveState::Moving(m) => {
                let rem = sat_sub(m.remaining_us, dt_us);
                if rem == 0 {
                    PlayerState {
                        pos: m.target,
                        move_state: MoveState::Stationary,
                        move_cooldown: MOVE_COOLDOWN_US,
                        ..cooled
                    }
                } else {
                    PlayerState {
                        move_state: MoveState::Moving(
                            MovingState { remaining_us: rem, target: m.target },
                        ),
                        ..cooled
                    }
                }
            },
        }
    }

    pub fn tick_timers(&self, dt_us: u32) -> (r: PlayerState)
        ensures
            r == self.spec_tick_timers(dt_us),
    {
        let mut next = *self;
        next.move_cooldown = self.move_cooldown.saturating_sub(dt_us);
        next.pushing = None;
        next.pushed_by = None;
        match self.move_state {
            MoveState::Stationary => {},
            MoveState::Moving(m) => {
                let rem = m.remaining_us.saturating_sub(dt_us);
                if rem == 0 {
                    next.pos = m.target;
                    next.move_state = MoveState::Stationary;
                    next.move_cooldown = MOVE_COOLDOWN_US;
                } else {
                    next.move_state = MoveState::Moving(
                        MovingState { remaining_us: rem, target: m.target },
                    );
                }
            },
        }
        next
    }

    /// The number that stands for a player in a public state: its id, or
    /// `-1` for nobody.
    pub open spec fn spec_public_id(id: Option<PlayerId>) -> i32 {
        match id {
            Some(id) => id.0 as i32,
            None => -1i32,
        }
    }

    /// The place of a position on the screen, to the thousandth of a tile:
    /// the left edge of a tile, or the place of a lilypad at `time_us`. A
    /// lilypad that the map does not have is placed at column 0.
    pub open spec fn spec_screen_pos(
        pos: Pos,
        round_id: u8,
        spawn_times: crate::map::river::RiverSpawnTimes,
        time_us: u32,
        map: GameMap,
    ) -> PreciseCoords {
        match pos {
            Pos::Coord(c) => c.spec_to_precise(),
            Pos::Lillipad(l) => PreciseCoords {
                x: match map.spec_lillipad_screen_x(round_id, spawn_times, time_us, l) {
                    Some(x) => x as i32,
                    None => 0,
                },
                y: l.y,
            },
        }
    }

    fn screen_pos(
        pos: Pos,
        round_id: u8,
        spawn_times: &crate::map::river::RiverSpawnTimes,
        time_us: u32,
        map: &GameMap,
    ) -> (r: PreciseCoords)
        ensures
            r == Self::spec_screen_pos(pos, round_id, *spawn_times, time_us, *map),
    {
        match pos {
            Pos::Coord(c) => c.to_precise(),
            Pos::Lillipad(l) => PreciseCoords {
                x: match map.get_lillipad_screen_x(round_id, spawn_times, time_us, &l) {
                    Some(x) => x,
                    None => 0,
                },
                y: l.y,
            },
        }
    }

    /// The player as a front end draws it at `time_us`. A player at rest
    /// has its own place as target and no time left.
    pub open spec fn spec_to_public(
        self,
        round_id: u8,
        spawn_times: crate::map::river::RiverSpawnTimes,
        time_us: u32,
        map: GameMap,
    ) -> PlayerStatePublic {
        let at = Self::spec_screen_pos(self.pos, round_id, spawn_times, time_us, map);
        let target = match self.move_state {
            MoveState::Moving(m) => Self::spec_screen_pos(
                m.target,
                round_id,
                spawn_times,
                time_us,
                map,
            ),
            MoveState::Stationary => at,
        };
        PlayerStatePublic {
            id: self.id.0,
            x: at.x,
            y: at.y,
            moving: self.move_state is Moving,
            remaining_move_dur: match self.move_state {
                MoveState::Moving(m) => m.remaining_us,
                MoveState::Stationary => 0,
            },
            t_x: target.x,
            t_y: target.y,
            pushing: Self::spec_public_id(self.pushing),
            pushed_by: Self::spec_public_id(self.pushed_by),
        }
    }

    pub fn to_public(
        &self,
        round_id: u8,
        spawn_times: &crate::map::river::RiverSpawnTimes,
        time_us: u32,
        map: &GameMap,
    ) -> (r: PlayerStatePublic)
        ensures
            r == self.spec_to_public(round_id, *spawn_times, time_us, *map),
    {
        let at = Self::screen_pos(self.pos, round_id, spawn_times, time_us, map);
        let (moving, remaining_move_dur, target) = match self.move_state {
            MoveState::Moving(m) => (
                true,
                m.remaining_us,
                Self::screen_pos(m.target, round_id, spawn_times, time_us, map),
            ),
            MoveState::Stationary => (false, 0, at),
        };
        PlayerStatePublic {
            id: self.id.0,
            x: at.x,
            y: at.y,
            moving,
            remaining_move_dur,
            t_x: target.x,
            t_y: target.y,
            pushing: match self.pushing {
                Some(id) => id.0 as i32,
                None => -1,
            },
            pushed_by: match self.pushed_by {
                Some(id) => id.0 as i32,
                None => -1,
            },
        }
    }

    /// The player at the start of a move towards `target`.
    pub open spec fn spec_start_move(self, target: Pos) -> PlayerState {
        PlayerState {
            move_state: MoveState::Moving(MovingState { remaining_us: MOVE_DUR_US, target }),
            ..self
        }
    }

    pub fn start_move(&self, target: Pos) -> (r: PlayerState)
        ensures
            r == self.spec_start_move(target),
    {
        let mut next = *self;
        next.move_state = MoveState::Moving(MovingState { remaining_us: MOVE_DUR_US, target });
        next
    }
}

impl PlayerInputs {
    /// The input of the player in slot `i`.
    pub open spec fn slot(self, i: int) -> Input {
        self.inputs[i]
    }

    /// The input recorded for `id`: `Input::NoInput` for an id out of range.
    pub open spec fn spec_get(self, id: PlayerId) -> Input {
        if id.0 < MAX_PLAYERS {
            self.inputs[id.0 as int]
        } else {
            Input::NoInput
        }
    }

    /// The inputs that agree with `self` except that `id` has `input`.
    pub open spec fn spec_set(self, id: PlayerId, input: Input) -> PlayerInputs {
        if id.0 < MAX_PLAYERS {
            PlayerInputs { inputs: vstd::array::spec_array_update(self.inputs, id.0 as int, input) }
        } else {
            self
        }
    }

    /// The inputs in which no player asks for anything.
    pub open spec fn spec_new() -> PlayerInputs {
        PlayerInputs { inputs: vstd::array::spec_array_fill_for_copy_type::<Input, 8>(Input::NoInput) }
    }

    /// Two records with the same input in every slot are the same record.
    pub proof fn lemma_ext_equal(self, other: Self)
        requires
            forall|i: int| 0 <= i < MAX_PLAYERS ==> self.inputs[i] == other.inputs[i],
        ensures
            self == other,
    {
        assert(self.inputs =~= other.inputs);
    }

    pub fn new() -> (r: Self)
        ensures
            r == Self::spec_new(),
            forall|id: PlayerId| r.spec_get(id) == Input::NoInput,
    {
        PlayerInputs { inputs: [Input::NoInput; 8] }
    }

    /// Records `input` for `id`. An id out of range is ignored.
    pub fn set(&mut self, id: PlayerId, input: Input)
        ensures
            *final(self) == old(self).spec_set(id, input),
    {
        if (id.0 as usize) < MAX_PLAYERS {
            self.inputs[id.0 as usize] = input;
            proof {
                self.lemma_ext_equal(old(self).spec_set(id, input));
            }
        }
    }

    pub fn get(&self, id: PlayerId) -> (r: Input)
        ensures
            r == self.spec_get(id),
    {
        if (id.0 as usize) < MAX_PLAYERS {
            self.inputs[id.0 as usize]
        } else {
            Input::NoInput
        }
    }
}

/// What was done to the slot of a player from outside the simulation, at
/// the frame of a snapshot: a player was put there, the player was taken
/// out, or the player said whether it is ready.
#[derive(Clone, Copy, Debug, PartialEq, Eq, Structural)]
pub enum SlotEdit {
    Put(PlayerState),
    Remove,
    Ready(bool),
}

/// One snapshot of the world: the clock, the inputs that led to it, the
/// players and the rules, and what was done to the players from outside
/// the simulation at this frame.
#[derive(Clone, Copy, Debug)]
pub struct GameState {
    pub time_us: u32,
    pub frame_id: u32,
    pub player_inputs: PlayerInputs,
    pub player_states: PlayerIdMap<PlayerState>,
    pub rules_state: RulesState,
    pub edits: PlayerIdMap<SlotEdit>,
}

/// What a slot holds after an edit.
pub open spec fn spec_edited(slot: Option<PlayerState>, edit: Option<SlotEdit>) -> Option<
    PlayerState,
> {
    match edit {
        None => slot,
        Some(SlotEdit::Put(p)) => Some(p),
        Some(SlotEdit::Remove) => None,
        Some(SlotEdit::Ready(ready)) => match slot {
            Some(p) => Some(PlayerState { ready, ..p }),
            None => None,
        },
    }
}

/// The players after the edits of the first `n` slots.
pub open spec fn spec_edited_upto(
    players: PlayerIdMap<PlayerState>,
    edits: PlayerIdMap<SlotEdit>,
    n: int,
) -> PlayerIdMap<PlayerState>
    decreases n,
{
    if n <= 0 {
        players
    } else {
        spec_edited_upto(players, edits, n - 1).spec_with_slot(
            n - 1,
            spec_edited(players.inner[n - 1], edits.inner[n - 1]),
        )
    }
}

/// The edit that stands for an edit followed by a report of readiness.
pub open spec fn spec_then_ready(edit: Option<SlotEdit>, ready: bool) -> SlotEdit {
    match edit {
        Some(SlotEdit::Put(p)) => SlotEdit::Put(PlayerState { ready, ..p }),
        Some(SlotEdit::Remove) => SlotEdit::Remove,
        _ => SlotEdit::Ready(ready),
    }
}

/// Whether two maps hold the same edits.
pub fn same_edits(a: &PlayerIdMap<SlotEdit>, b: &PlayerIdMap<SlotEdit>) -> (r: bool)
    ensures
        r == (*a == *b),
{
    let mut i: usize = 0;
    while i < MAX_PLAYERS
        invariant
            i <= MAX_PLAYERS,
            forall|k: int| 0 <= k < i ==> a.inner[k] == b.inner[k],
        decreases MAX_PLAYERS - i,
    {
        let same = match (a.get_slot(i), b.get_slot(i)) {
            (Some(SlotEdit::Put(x)), Some(SlotEdit::Put(y))) => same_player(&x, &y),
            (Some(SlotEdit::Remove), Some(SlotEdit::Remove)) => true,
            (Some(SlotEdit::Ready(x)), Some(SlotEdit::Ready(y))) => x == y,
            (None, None) => true,
            _ => false,
        };
        if !same {
            return false;
        }
        i = i + 1;
    }
    proof {
        a.lemma_ext_equal(*b);
    }
    true
}

/// The players after a tick of the rules that led from `before` to `after`:
/// lined up on the starting row when a warm-up begins, and on the lobby row
/// when the match returns to the lobby; left alone otherwise.
pub open spec fn spec_placed(
    players: PlayerIdMap<PlayerState>,
    before: CrossyRulesetFST,
    after: CrossyRulesetFST,
) -> PlayerIdMap<PlayerState> {
    if after is RoundWarmup && !(before is RoundWarmup) {
        spec_lined_up_upto(players, START_ROW, MAX_PLAYERS as int)
    } else if after is Lobby && !(before is Lobby) {
        spec_lined_up_upto(players, LOBBY_ROW, MAX_PLAYERS as int)
    } else {
        players
    }
}

/// The number of the game after a tick of the rules: a match that returns
/// to the lobby is over, and the next one begins.
pub open spec fn spec_next_game_id(game_id: u32, before: CrossyRulesetFST, after: CrossyRulesetFST)
    -> u32 {
    if after is Lobby && !(before is Lobby) {
        game_id.wrapping_add(1)
    } else {
        game_id
    }
}

/// Whether two players are the same in every field.
pub fn same_player(a: &PlayerState, b: &PlayerState) -> (r: bool)
    ensures
        r == (*a == *b),
{
    a.id == b.id && a.pos == b.pos && a.move_state == b.move_state && a.move_cooldown
        == b.move_cooldown && a.ready == b.ready && a.pushing == b.pushing && a.pushed_by
        == b.pushed_by
}

/// Whether two maps hold the same players.
pub fn same_players(a: &PlayerIdMap<PlayerState>, b: &PlayerIdMap<PlayerState>) -> (r: bool)
    ensures
        r == (*a == *b),
{
    let mut i: usize = 0;
    while i < MAX_PLAYERS
        invariant
            i <= MAX_PLAYERS,
            forall|k: int| 0 <= k < i ==> a.inner[k] == b.inner[k],
        decreases MAX_PLAYERS - i,
    {
        let same = match (a.get_slot(i), b.get_slot(i)) {
            (Some(x), Some(y)) => same_player(&x, &y),
            (None, None) => true,
            _ => false,
        };
        if !same {
            return false;
        }
        i = i + 1;
    }
    proof {
        a.lemma_ext_equal(*b);
    }
    true
}

impl GameState {
    /// The world before anything has happened: no players, the lobby, time 0.
    pub open spec fn spec_new(config: GameConfig) -> GameState {
        GameState {
            time_us: 0,
            frame_id: 0,
            player_inputs: PlayerInputs::spec_new(),
            player_states: PlayerIdMap {
                inner: vstd::array::spec_array_fill_for_copy_type::<Option<PlayerState>, 8>(None),
            },
            rules_state: RulesState { fst: CrossyRulesetFST::spec_start(), game_id: 0, config },
            edits: spec_no_edits(),
        }
    }

    pub fn new(config: GameConfig) -> (r: Self)
        ensures
            r == Self::spec_new(config),
    {
        GameState {
            time_us: 0,
            frame_id: 0,
            player_inputs: PlayerInputs::new(),
            player_states: PlayerIdMap { inner: [None;8] },
            rules_state: RulesState { fst: CrossyRulesetFST::start(), game_id: 0, config },
            edits: PlayerIdMap { inner: [None;8] },
        }
    }

    /// The world as a server describes it to a client that joins: its
    /// clock, its players, each in the slot of its id, and its rules.
    pub open spec fn spec_from_server_parts(
        config: GameConfig,
        frame_id: u32,
        time_us: u32,
        players: Seq<PlayerState>,
        fst: CrossyRulesetFST,
    ) -> GameState {
        GameState {
            time_us,
            frame_id,
            player_inputs: PlayerInputs::spec_new(),
            player_states: spec_seated(players, players.len() as int),
            rules_state: RulesState { fst, game_id: 0, config },
            edits: spec_no_edits(),
        }
    }

    pub fn from_server_parts(
        config: GameConfig,
        frame_id: u32,
        time_us: u32,
        players: &Vec<PlayerState>,
        fst: CrossyRulesetFST,
    ) -> (r: Self)
        ensures
            r == Self::spec_from_server_parts(config, frame_id, time_us, players@, fst),
    {
        let mut seated: PlayerIdMap<PlayerState> = PlayerIdMap { inner: [None;8] };
        proof {
            seated.lemma_ext_equal(spec_seated(players@, 0));
        }
        let mut i: usize = 0;
        while i < players.len()
            invariant
                i <= players.len(),
                seated == spec_seated(players@, i as int),
            decreases players.len() - i,
        {
            let p = players[i];
            seated.set(p.id, p);
            i = i + 1;
        }
        GameState {
            time_us,
            frame_id,
            player_inputs: PlayerInputs::new(),
            player_states: seated,
            rules_state: RulesState { fst, game_id: 0, config },
            edits: PlayerIdMap { inner: [None;8] },
        }
    }

    /// The snapshot that follows `self` when `dt_us` microseconds pass with
    /// the inputs `inputs`. In this order: the clock advances; cooldowns and
    /// moves run down and finished moves land; the inputs start new moves,
    /// lowest player first; the rules take their tick, which is where players
    /// die; and where the rules begin a warm-up or return to the lobby the
    /// players are lined up.
    pub open spec fn spec_simulate(self, inputs: PlayerInputs, dt_us: u32, map: GameMap)
        -> GameState {
        let time_us = self.time_us.wrapping_add(dt_us);
        let timed = spec_timers_upto(self.player_states, dt_us, MAX_PLAYERS as int);
        let fst = self.rules_state.fst;
        let moved = spec_moves_upto(
            timed,
            inputs,
            MoveContext { map, fst, time_us },
            MAX_PLAYERS as int,
        );
        let next = fst.spec_tick(
            self.rules_state.config,
            TickContext { dt_us, time_us, players: moved, map },
        );
        GameState {
            time_us,
            frame_id: (self.frame_id + 1) as u32,
            player_inputs: inputs,
            player_states: spec_placed(moved, fst, next),
            rules_state: RulesState {
                fst: next,
                game_id: spec_next_game_id(self.rules_state.game_id, fst, next),
                config: self.rules_state.config,
            },
            edits: spec_no_edits(),
        }
    }

    /// The snapshot with the edits `edits` made to its players, and
    /// recorded in it.
    pub open spec fn spec_with_edits(self, edits: PlayerIdMap<SlotEdit>) -> GameState {
        GameState {
            player_states: spec_edited_upto(self.player_states, edits, MAX_PLAYERS as int),
            edits,
            ..self
        }
    }

    /// The snapshot `old` computed again from `self`, the snapshot before
    /// it: simulated with the inputs and over the time that `old` records,
    /// and then edited as `old` was.
    pub open spec fn spec_resimulate(self, old: GameState, map: GameMap) -> GameState {
        self.spec_simulate(
            old.player_inputs,
            old.time_us.wrapping_sub(self.time_us),
            map,
        ).spec_with_edits(old.edits)
    }

    /// Computes the snapshot `old` again from the snapshot before it.
    pub fn resimulate(&self, old: &GameState, map: &GameMap) -> (r: GameState)
        requires
            self.frame_id < u32::MAX,
        ensures
            r == self.spec_resimulate(*old, *map),
            r.frame_id == self.frame_id + 1,
    {
        let mut next = self.simulate(
            Some(old.player_inputs),
            old.time_us.wrapping_sub(self.time_us),
            map,
        );
        let simulated = next.player_states;
        let mut i: usize = 0;
        while i < MAX_PLAYERS
            invariant
                i <= MAX_PLAYERS,
                next == (GameState {
                    player_states: spec_edited_upto(simulated, old.edits, i as int),
                    ..self.spec_simulate(
                        old.player_inputs,
                        old.time_us.wrapping_sub(self.time_us),
                        *map,
                    )
                }),
            decreases MAX_PLAYERS - i,
        {
            let slot = simulated.get_slot(i);
            let edited = match old.edits.get_slot(i) {
                None => slot,
                Some(SlotEdit::Put(p)) => Some(p),
                Some(SlotEdit::Remove) => None,
                Some(SlotEdit::Ready(ready)) => match slot {
                    Some(p) => {
                        let mut q = p;
                        q.ready = ready;
                        Some(q)
                    },
                    None => None,
                },
            };
            next.player_states.set_slot(i, edited);
            i = i + 1;
        }
        next.edits = old.edits;
        next
    }

    /// Computes the next snapshot. Nothing but the arguments decides it;
    /// without inputs nobody asks for anything.
    pub fn simulate(&self, inputs: Option<PlayerInputs>, dt_us: u32, map: &GameMap) -> (r:
        GameState)
        requires
            self.frame_id < u32::MAX,
        ensures
            r == self.spec_simulate(spec_inputs_or_none(inputs), dt_us, *map),
            r.frame_id == self.frame_id + 1,
    {
        let inputs = match inputs {
            Some(i) => i,
            None => PlayerInputs::new(),
        };
        let time_us = self.time_us.wrapping_add(dt_us);
        let timed = tick_all_timers(&self.player_states, dt_us);
        let fst = self.rules_state.fst;
        let ctx = MoveContext { map: *map, fst, time_us };
        let moved = apply_all_moves(&timed, &inputs, &ctx);
        let next = fst.tick(
            &self.rules_state.config,
            &TickContext { dt_us, time_us, players: moved, map: *map },
        );
        let was_warmup = match fst {
            CrossyRulesetFST::RoundWarmup(_) => true,
            _ => false,
        };
        let was_lobby = match fst {
            CrossyRulesetFST::Lobby(_) => true,
            _ => false,
        };
        let (players, game_id) = match next {
            CrossyRulesetFST::RoundWarmup(_) => if was_warmup {
                (moved, self.rules_state.game_id)
            } else {
                (line_up(&moved, START_ROW), self.rules_state.game_id)
            },
            CrossyRulesetFST::Lobby(_) => if was_lobby {
                (moved, self.rules_state.game_id)
            } else {
                (line_up(&moved, LOBBY_ROW), self.rules_state.game_id.wrapping_add(1))
            },
            _ => (moved, self.rules_state.game_id),
        };
        GameState {
            time_us,
            frame_id: self.frame_id + 1,
            player_inputs: inputs,
            player_states: players,
            rules_state: RulesState { fst: next, game_id, config: self.rules_state.config },
            edits: PlayerIdMap { inner: [None;8] },
        }
    }

    /// The snapshot with a new player at `pos`. An id out of range is ignored.
    pub open spec fn spec_add_player(self, id: PlayerId, pos: Pos) -> GameState {
        GameState {
            player_states: self.player_states.spec_set(id, PlayerState::spec_new(id, pos)),
            edits: self.edits.spec_set(id, SlotEdit::Put(PlayerState::spec_new(id, pos))),
            ..self
        }
    }

    pub fn add_player(&self, id: PlayerId, pos: Pos) -> (r: GameState)
        ensures
            r == self.spec_add_player(id, pos),
    {
        let mut next = *self;
        next.player_states.set(id, PlayerState::new(id, pos));
        next.edits.set(id, SlotEdit::Put(PlayerState::new(id, pos)));
        next
    }

    /// The snapshot without the player `id`.
    pub open spec fn spec_remove_player(self, id: PlayerId) -> GameState {
        GameState {
            player_states: self.player_states.spec_remove(id),
            edits: self.edits.spec_set(id, SlotEdit::Remove),
            ..self
        }
    }

    pub fn remove_player(&self, id: PlayerId) -> (r: GameState)
        ensures
            r == self.spec_remove_player(id),
    {
        let mut next = *self;
        next.player_states.remove(id);
        next.edits.set(id, SlotEdit::Remove);
        next
    }

    /// The snapshot in which the player `id`, if there is one, has said
    /// whether it is ready.
    pub open spec fn spec_set_player_ready(self, id: PlayerId, ready: bool) -> GameState {
        match self.player_states.spec_get(id) {
            Some(p) => GameState {
                player_states: self.player_states.spec_set(id, PlayerState { ready, ..p }),
                edits: self.edits.spec_set(id, spec_then_ready(self.edits.spec_get(id), ready)),
                ..self
            },
            None => self,
        }
    }

    pub fn set_player_ready(&self, id: PlayerId, ready: bool) -> (r: GameState)
        ensures
            r == self.spec_set_player_ready(id, ready),
    {
        match self.player_states.get(id) {
            Some(p) => {
                let mut q = p;
                q.ready = ready;
                let mut next = *self;
                next.player_states.set(id, q);
                let edit = match self.edits.get(id) {
                    Some(SlotEdit::Put(put)) => {
                        let mut put_ready = put;
                        put_ready.ready = ready;
                        SlotEdit::Put(put_ready)
                    },
                    Some(SlotEdit::Remove) => SlotEdit::Remove,
                    _ => SlotEdit::Ready(ready),
                };
                next.edits.set(id, edit);
                next
            },
            None => *self,
        }
    }

    pub fn get_player(&self, id: PlayerId) -> (r: Option<PlayerState>)
        ensures
            r == self.player_states.spec_get(id),
    {
        self.player_states.get(id)
    }

    pub fn get_rule_state(&self) -> (r: CrossyRulesetFST)
        ensures
            r == self.rules_state.fst,
    {
        self.rules_state.fst
    }

    pub fn get_round_id(&self) -> (r: u8)
        ensures
            r == self.rules_state.fst.spec_round_id(),
    {
        self.rules_state.fst.get_round_id()
    }

    /// The players of the snapshot, lowest slot first.
    pub open spec fn spec_valid_player_states(self, n: int) -> Seq<PlayerState>
        decreases n,
    {
        if n <= 0 {
            Seq::empty()
        } else {
            match self.player_states.inner[n - 1] {
                Some(p) => self.spec_valid_player_states(n - 1).push(p),
                None => self.spec_valid_player_states(n - 1),
            }
        }
    }

    pub fn get_valid_player_states(&self) -> (r: Vec<PlayerState>)
        ensures
            r@ == self.spec_valid_player_states(MAX_PLAYERS as int),
    {
        let mut out: Vec<PlayerState> = Vec::new();
        let mut i: usize = 0;
        while i < MAX_PLAYERS
            invariant
                i <= MAX_PLAYERS,
                out@ == self.spec_valid_player_states(i as int),
            decreases MAX_PLAYERS - i,
        {
            match self.player_states.get_slot(i) {
                Some(p) => {
                    out.push(p);
                },
                None => {},
            }
            i = i + 1;
        }
        out
    }

    /// Whether a player other than `ignore` stands at `pos` or is on its way
    /// there. Every player of the snapshot counts, whatever its role.
    pub open spec fn spec_space_occupied_with_player(self, pos: Pos, ignore: Option<PlayerId>)
        -> bool {
        exists|j: int| 0 <= j < MAX_PLAYERS && #[trigger] self.spec_slot_holds(j, pos, ignore)
    }

    /// Whether slot `j` holds a player other than `ignore` that stands at
    /// `pos` or is on its way there.
    pub open spec fn spec_slot_holds(self, j: int, pos: Pos, ignore: Option<PlayerId>) -> bool {
        ignore != Some(PlayerId(j as u8)) && match self.player_states.inner[j] {
            Some(q) => spec_holds(q, pos),
            None => false,
        }
    }

    pub fn space_occupied_with_player(&self, pos: Pos, ignore: Option<PlayerId>) -> (r: bool)
        ensures
            r == self.spec_space_occupied_with_player(pos, ignore),
    {
        let mut j: usize = 0;
        while j < MAX_PLAYERS
            invariant
                j <= MAX_PLAYERS,
                forall|k: int| 0 <= k < j ==> !#[trigger] self.spec_slot_holds(k, pos, ignore),
            decreases MAX_PLAYERS - j,
        {
            let skip = match ignore {
                Some(id) => id.0 as usize == j,
                None => false,
            };
            if !skip {
                match self.player_states.get_slot(j) {
                    Some(q) => {
                        if crate::movement::holds(&q, pos) {
                            assert(self.spec_slot_holds(j as int, pos, ignore));
                            return true;
                        }
                    },
                    None => {},
                }
            }
            j = j + 1;
        }
        false
    }

    /// Whether two snapshots are the same in every field.
    pub fn same_as(&self, other: &GameState) -> (r: bool)
        ensures
            r == (*self == *other),
    {
        self.time_us == other.time_us && self.frame_id == other.frame_id
            && self.player_inputs.same_as(&other.player_inputs) && same_players(
            &self.player_states,
            &other.player_states,
        ) && self.rules_state.same_as(&other.rules_state) && same_edits(&self.edits, &other.edits)
    }
}

/// No edits: every slot is left as the simulation has it.
pub open spec fn spec_no_edits() -> PlayerIdMap<SlotEdit> {
    PlayerIdMap { inner: vstd::array::spec_array_fill_for_copy_type::<Option<SlotEdit>, 8>(None) }
}

/// The inputs, or those in which nobody asks for anything.
pub open spec fn spec_inputs_or_none(inputs: Option<PlayerInputs>) -> PlayerInputs {
    match inputs {
        Some(i) => i,
        None => PlayerInputs::spec_new(),
    }
}

/// The first `n` players of a list, each in the slot of its id; of two with
/// one id the later stays, and one with an id out of range is left out.
pub open spec fn spec_seated(players: Seq<PlayerState>, n: int) -> PlayerIdMap<PlayerState>
    decreases n,
{
    if n <= 0 {
        PlayerIdMap {
            inner: vstd::array::spec_array_fill_for_copy_type::<Option<PlayerState>, 8>(None),
        }
    } else {
        spec_seated(players, n - 1).spec_set(players[n - 1].id, players[n - 1])
    }
}

impl PlayerInputs {
    /// Whether two records hold the same inputs.
    pub fn same_as(&self, other: &PlayerInputs) -> (r: bool)
        ensures
            r == (*self == *other),
    {
        let mut i: usize = 0;
        while i < MAX_PLAYERS
            invariant
                i <= MAX_PLAYERS,
                forall|k: int| 0 <= k < i ==> self.inputs[k] == other.inputs[k],
            decreases MAX_PLAYERS - i,
        {
            if self.inputs[i] != other.inputs[i] {
                return false;
            }
            i = i + 1;
        }
        proof {
            self.lemma_ext_equal(*other);
        }
        true
    }
}

} // verus!
