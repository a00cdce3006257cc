//! The rules of a match as a state machine: lobby, warm-up, round,
//! cool-down, winner. One call of `tick` per simulation step.

use vstd::prelude::*;
use crate::game::sat_sub;
use crate::game::MoveState;
use crate::game::PlayerState;
use crate::game::Pos;
use crate::game::FIELD_WIDTH;
use crate::game::MILLI;
use crate::map::river::RiverSpawnTimes;
use crate::map::GameMap;
use crate::map::RowType;
use crate::map::spec_row_type;
use crate::map::LOBBY_ROUND;
use crate::map::SCREEN_ROWS;
use crate::player_id_map::PlayerId;
use crate::player_id_map::PlayerIdMap;
use crate::player_id_map::MAX_PLAYERS;

verus! {

/// How many ticks all players must stay ready before the match starts.
pub const LOBBY_READY_TICKS: u32 = 120;

/// The countdown before a round, in microseconds.
pub const WARMUP_US: u32 = 3_000_000;

/// The freeze after a round, in microseconds.
pub const COOLDOWN_US: u32 = 2_000_000;

/// How long the winner of a match is shown, in microseconds.
pub const WINNER_US: u32 = 5_000_000;

/// The screen scrolls while every living player is at least this many rows
/// above its bottom.
pub const SCROLL_MARGIN: i32 = 8;

/// The ready zone of the lobby: columns 7 to 12, rows 14 to 17.
pub const READY_ZONE_X0: i32 = 7;

pub const READY_ZONE_X1: i32 = 12;

pub const READY_ZONE_Y0: i32 = 14;

pub const READY_ZONE_Y1: i32 = 17;

/// The row on which a round starts.
pub const START_ROW: i32 = 18;

/// The row on which players stand when a match returns to the lobby.
pub const LOBBY_ROW: i32 = 10;

/// What a game is set up with.
#[derive(Clone, Copy, Debug, PartialEq, Eq, Structural)]
pub struct GameConfig {
    pub bypass_lobby: bool,
    pub minimum_players: u8,
    pub required_win_count: u8,
}

/// Whether a player takes part in the round, and if so whether it lives.
#[derive(Clone, Copy, Debug, PartialEq, Eq, Structural)]
pub enum AliveState {
    NotInGame,
    Alive,
    Dead,
    Unknown,
}

#[derive(Clone, Copy, Debug, PartialEq, Eq, Structural)]
pub struct LobbyState {
    pub time_with_all_players_in_ready_zone: u32,
}

#[derive(Clone, Copy, Debug)]
pub struct WarmupState {
    pub remaining_us: u32,
    pub round_id: u8,
    pub alive_states: PlayerIdMap<AliveState>,
    pub win_counts: PlayerIdMap<u8>,
}

#[derive(Clone, Copy, Debug)]
pub struct RoundState {
    pub round_id: u8,
    pub screen_y: i32,
    pub alive_states: PlayerIdMap<AliveState>,
    pub river_spawn_times: RiverSpawnTimes,
    pub win_counts: PlayerIdMap<u8>,
}

#[derive(Clone, Copy, Debug)]
pub struct CooldownState {
    pub round_state: RoundState,
    pub remaining_us: u32,
}

#[derive(Clone, Copy, Debug)]
pub struct EndWinnerState {
    pub winner_id: PlayerId,
    pub remaining_us: u32,
    pub win_counts: PlayerIdMap<u8>,
}

/// The states of a match.
#[derive(Clone, Copy, Debug)]
pub enum CrossyRulesetFST {
    Lobby(LobbyState),
    RoundWarmup(WarmupState),
    Round(RoundState),
    RoundCooldown(CooldownState),
    EndWinner(EndWinnerState),
}

/// The state of the rules with what does not change during a match.
#[derive(Clone, Copy, Debug)]
pub struct RulesState {
    pub fst: CrossyRulesetFST,
    pub game_id: u32,
    pub config: GameConfig,
}

/// What a tick of the rules looks at besides the state itself.
#[derive(Clone, Copy, Debug)]
pub struct TickContext {
    pub dt_us: u32,
    pub time_us: u32,
    pub players: PlayerIdMap<PlayerState>,
    pub map: GameMap,
}

impl GameConfig {
    /// Two players start a match; three crowns win it.
    pub open spec fn spec_default() -> GameConfig {
        GameConfig { bypass_lobby: false, minimum_players: 2, required_win_count: 3 }
    }
}

impl Default for GameConfig {
    fn default() -> (r: Self)
        ensures
            r == GameConfig::spec_default(),
    {
        GameConfig { bypass_lobby: false, minimum_players: 2, required_win_count: 3 }
    }
}

/// Whether a player counts as ready in the lobby: it said so, or it stands
/// on a tile of the ready zone.
pub open spec fn spec_player_in_lobby_ready_zone(p: PlayerState) -> bool {
    p.ready || (p.pos matches Pos::Coord(c) && READY_ZONE_X0 <= c.x <= READY_ZONE_X1
        && READY_ZONE_Y0 <= c.y <= READY_ZONE_Y1)
}

pub fn player_in_lobby_ready_zone(p: &PlayerState) -> (r: bool)
    ensures
        r == spec_player_in_lobby_ready_zone(*p),
{
    if p.ready {
        return true;
    }
    match p.pos {
        Pos::Coord(c) => READY_ZONE_X0 <= c.x && c.x <= READY_ZONE_X1 && READY_ZONE_Y0 <= c.y
            && c.y <= READY_ZONE_Y1,
        Pos::Lillipad(_) => false,
    }
}

/// Whether every player among the first `n` slots is ready.
pub open spec fn spec_all_ready_below(players: PlayerIdMap<PlayerState>, n: int) -> bool {
    forall|i: int|
        0 <= i < n && i < MAX_PLAYERS ==> ((#[trigger] players.inner[i]) matches Some(p)
            ==> spec_player_in_lobby_ready_zone(p))
}

/// Whether the match may leave the lobby: enough players, all of them ready.
pub open spec fn spec_lobby_ready(config: GameConfig, players: PlayerIdMap<PlayerState>) -> bool {
    &&& players.spec_count_populated() >= 1
    &&& players.spec_count_populated() >= config.minimum_players
    &&& spec_all_ready_below(players, MAX_PLAYERS as int)
}

/// The roles at the start of a round: whoever is there plays and lives.
pub open spec fn spec_initial_alive(players: PlayerIdMap<PlayerState>, n: int) -> PlayerIdMap<
    AliveState,
>
    decreases n,
{
    if n <= 0 {
        PlayerIdMap {
            inner: vstd::array::spec_array_fill_for_copy_type::<Option<AliveState>, 8>(None),
        }
    } else {
        spec_initial_alive(players, n - 1).spec_with_slot(
            n - 1,
            if players.inner[n - 1] is Some {
                Some(AliveState::Alive)
            } else {
                Some(AliveState::NotInGame)
            },
        )
    }
}

/// Whether what the player stands on, or moves to, kills it at `time_us`:
/// a tile beside the field, a road tile that a car covers, open water, or a
/// lilypad that is gone or has left the field.
pub open spec fn spec_doomed(
    p: PlayerState,
    round_id: u8,
    spawn_times: RiverSpawnTimes,
    time_us: u32,
    map: GameMap,
) -> bool {
    ||| (p.move_state matches MoveState::Moving(m) && m.target matches Pos::Coord(t)
        && !t.spec_on_field())
    ||| match p.pos {
        Pos::Coord(c) => {
            ||| !c.spec_on_field()
            ||| map.spec_collides_car(round_id, time_us, c)
            ||| spec_row_type(map.seed, round_id, c.y) is River
        },
        Pos::Lillipad(l) => match map.spec_lillipad_screen_x(round_id, spawn_times, time_us, l) {
            Some(x) => x < -(MILLI / 2) || x > (FIELD_WIDTH - 1) * MILLI + MILLI / 2,
            None => true,
        },
    }
}

pub fn doomed(
    p: &PlayerState,
    round_id: u8,
    spawn_times: &RiverSpawnTimes,
    time_us: u32,
    map: &GameMap,
) -> (r: bool)
    ensures
        r == spec_doomed(*p, round_id, *spawn_times, time_us, *map),
{
    match p.move_state {
        MoveState::Moving(m) => match m.target {
            Pos::Coord(t) => if !t.on_field() {
                return true;
            },
            Pos::Lillipad(_) => {},
        },
        MoveState::Stationary => {},
    }
    match p.pos {
        Pos::Coord(c) => {
            if !c.on_field() {
                return true;
            }
            if map.collides_car(round_id, time_us, c) {
                return true;
            }
            match map.get_row(round_id, c.y).row_type {
                RowType::River(_) => true,
                _ => false,
            }
        },
        Pos::Lillipad(l) => match map.get_lillipad_screen_x(round_id, spawn_times, time_us, &l) {
            Some(x) => x < -(MILLI / 2) || x > (FIELD_WIDTH - 1) * MILLI + MILLI / 2,
            None => true,
        },
    }
}

/// The role of the player in slot `i` after a tick of a round: a living
/// player dies when it is doomed, and leaves the game when its slot is empty.
pub open spec fn spec_next_alive(r: RoundState, ctx: TickContext, i: int) -> Option<AliveState> {
    match r.alive_states.inner[i] {
        Some(AliveState::Alive) => match ctx.players.inner[i] {
            Some(p) => if spec_doomed(p, r.round_id, r.river_spawn_times, ctx.time_us, ctx.map) {
                Some(AliveState::Dead)
            } else {
                Some(AliveState::Alive)
            },
            None => Some(AliveState::NotInGame),
        },
        other => other,
    }
}

/// The roles after a tick of a round, for the first `n` slots.
pub open spec fn spec_alive_upto(r: RoundState, ctx: TickContext, n: int) -> PlayerIdMap<
    AliveState,
>
    decreases n,
{
    if n <= 0 {
        r.alive_states
    } else {
        spec_alive_upto(r, ctx, n - 1).spec_with_slot(n - 1, spec_next_alive(r, ctx, n - 1))
    }
}

/// How many of the first `n` slots hold the role `what`.
pub open spec fn spec_count_role(alive: PlayerIdMap<AliveState>, what: AliveState, n: int) -> int
    decreases n,
{
    if n <= 0 {
        0
    } else {
        spec_count_role(alive, what, n - 1) + if alive.inner[n - 1] == Some(what) {
            1int
        } else {
            0int
        }
    }
}

/// The lowest of the first `n` slots that holds the role `what`.
pub open spec fn spec_first_role(alive: PlayerIdMap<AliveState>, what: AliveState, n: int)
    -> Option<PlayerId>
    decreases n,
{
    if n <= 0 {
        None
    } else {
        match spec_first_role(alive, what, n - 1) {
            Some(id) => Some(id),
            None => if alive.inner[n - 1] == Some(what) && n - 1 < MAX_PLAYERS {
                Some(PlayerId((n - 1) as u8))
            } else {
                None
            },
        }
    }
}

/// Whether every living player among the first `n` slots stands at least
/// `SCROLL_MARGIN` rows above the bottom of the screen.
pub open spec fn spec_all_clear_of_bottom(
    alive: PlayerIdMap<AliveState>,
    players: PlayerIdMap<PlayerState>,
    screen_y: i32,
    n: int,
) -> bool {
    forall|i: int|
        0 <= i < n && i < MAX_PLAYERS ==> (#[trigger] alive.inner[i] == Some(AliveState::Alive)
            ==> (players.inner[i] matches Some(p) && p.pos.spec_y() < screen_y + SCREEN_ROWS
            - SCROLL_MARGIN))
}

/// The top row of the screen after a tick: one row up while somebody lives
/// and nobody who lives is near the bottom.
pub open spec fn spec_next_screen_y(
    alive: PlayerIdMap<AliveState>,
    players: PlayerIdMap<PlayerState>,
    screen_y: i32,
) -> i32 {
    if spec_count_role(alive, AliveState::Alive, MAX_PLAYERS as int) > 0
        && spec_all_clear_of_bottom(alive, players, screen_y, MAX_PLAYERS as int) && screen_y
        > i32::MIN {
        (screen_y - 1) as i32
    } else {
        screen_y
    }
}

/// Whether a round with these roles is over: one player or none is left of
/// several, or none of one.
pub open spec fn spec_round_over(alive: PlayerIdMap<AliveState>) -> bool {
    let living = spec_count_role(alive, AliveState::Alive, MAX_PLAYERS as int);
    let dead = spec_count_role(alive, AliveState::Dead, MAX_PLAYERS as int);
    living == 0 || (living == 1 && dead >= 1)
}

/// The round after one tick.
pub open spec fn spec_tick_round(r: RoundState, ctx: TickContext) -> CrossyRulesetFST {
    let alive = spec_alive_upto(r, ctx, MAX_PLAYERS as int);
    let next = RoundState {
        alive_states: alive,
        screen_y: spec_next_screen_y(alive, ctx.players, r.screen_y),
        ..r
    };
    if spec_round_over(alive) {
        CrossyRulesetFST::RoundCooldown(
            CooldownState { round_state: next, remaining_us: COOLDOWN_US },
        )
    } else {
        CrossyRulesetFST::Round(next)
    }
}

/// The survivor of a round: the living player, where exactly one lives.
pub open spec fn spec_survivor(alive: PlayerIdMap<AliveState>) -> Option<PlayerId> {
    if spec_count_role(alive, AliveState::Alive, MAX_PLAYERS as int) == 1 {
        spec_first_role(alive, AliveState::Alive, MAX_PLAYERS as int)
    } else {
        None
    }
}

/// The crowns of `id`.
pub open spec fn spec_crowns(win_counts: PlayerIdMap<u8>, id: PlayerId) -> u8 {
    match win_counts.spec_get(id) {
        Some(n) => n,
        None => 0,
    }
}

/// The crowns after a round: one more for the survivor, up to 255.
pub open spec fn spec_award(win_counts: PlayerIdMap<u8>, survivor: Option<PlayerId>)
    -> PlayerIdMap<u8> {
    match survivor {
        Some(id) => win_counts.spec_set(
            id,
            if spec_crowns(win_counts, id) < 255 {
                (spec_crowns(win_counts, id) + 1) as u8
            } else {
                255
            },
        ),
        None => win_counts,
    }
}

/// The id of the round after round `round_id`; after 255 comes 1.
pub open spec fn spec_next_round_id(round_id: u8) -> u8 {
    if round_id == 255 {
        1
    } else {
        (round_id + 1) as u8
    }
}

/// What follows a cool-down that has run out: the survivor gets a crown; with
/// enough crowns it has won the match, else the next round warms up.
pub open spec fn spec_after_cooldown(
    c: CooldownState,
    config: GameConfig,
    players: PlayerIdMap<PlayerState>,
) -> CrossyRulesetFST {
    let survivor = spec_survivor(c.round_state.alive_states);
    let crowns = spec_award(c.round_state.win_counts, survivor);
    match survivor {
        Some(id) if spec_crowns(crowns, id) >= config.required_win_count
            => CrossyRulesetFST::EndWinner(
            EndWinnerState { winner_id: id, remaining_us: WINNER_US, win_counts: crowns },
        ),
        _ => CrossyRulesetFST::RoundWarmup(
            WarmupState {
                remaining_us: WARMUP_US,
                round_id: spec_next_round_id(c.round_state.round_id),
                alive_states: spec_initial_alive(players, MAX_PLAYERS as int),
                win_counts: crowns,
            },
        ),
    }
}

/// The lobby after one tick.
pub open spec fn spec_tick_lobby(l: LobbyState, config: GameConfig, ctx: TickContext)
    -> CrossyRulesetFST {
    let waited: u32 = if l.time_with_all_players_in_ready_zone < u32::MAX {
        (l.time_with_all_players_in_ready_zone + 1) as u32
    } else {
        u32::MAX
    };
    let enough = ctx.players.spec_count_populated() >= 1 && ctx.players.spec_count_populated()
        >= config.minimum_players;
    if (config.bypass_lobby && enough) || (spec_lobby_ready(config, ctx.players) && waited
        >= LOBBY_READY_TICKS) {
        CrossyRulesetFST::RoundWarmup(
            WarmupState {
                remaining_us: WARMUP_US,
                round_id: 1,
                alive_states: spec_initial_alive(ctx.players, MAX_PLAYERS as int),
                win_counts: PlayerIdMap {
                    inner: vstd::array::spec_array_fill_for_copy_type::<Option<u8>, 8>(None),
                },
            },
        )
    } else if spec_lobby_ready(config, ctx.players) {
        CrossyRulesetFST::Lobby(LobbyState { time_with_all_players_in_ready_zone: waited })
    } else {
        CrossyRulesetFST::Lobby(LobbyState { time_with_all_players_in_ready_zone: 0 })
    }
}

impl CrossyRulesetFST {
    /// The state in which every match begins.
    pub open spec fn spec_start() -> CrossyRulesetFST {
        CrossyRulesetFST::Lobby(LobbyState { time_with_all_players_in_ready_zone: 0 })
    }

    pub fn start() -> (r: Self)
        ensures
            r == Self::spec_start(),
    {
        CrossyRulesetFST::Lobby(LobbyState { time_with_all_players_in_ready_zone: 0 })
    }

    /// The round that the state belongs to; `LOBBY_ROUND` outside a round.
    pub open spec fn spec_round_id(self) -> u8 {
        match self {
            CrossyRulesetFST::RoundWarmup(w) => w.round_id,
            CrossyRulesetFST::Round(r) => r.round_id,
            CrossyRulesetFST::RoundCooldown(c) => c.round_state.round_id,
            _ => LOBBY_ROUND,
        }
    }

    pub fn get_round_id(&self) -> (r: u8)
        ensures
            r == self.spec_round_id(),
    {
        match self {
            CrossyRulesetFST::RoundWarmup(w) => w.round_id,
            CrossyRulesetFST::Round(r) => r.round_id,
            CrossyRulesetFST::RoundCooldown(c) => c.round_state.round_id,
            _ => LOBBY_ROUND,
        }
    }

    /// The top row of the screen; 0 outside a round.
    pub open spec fn spec_screen_y(self) -> i32 {
        match self {
            CrossyRulesetFST::Round(r) => r.screen_y,
            CrossyRulesetFST::RoundCooldown(c) => c.round_state.screen_y,
            _ => 0,
        }
    }

    pub fn get_screen_y(&self) -> (r: i32)
        ensures
            r == self.spec_screen_y(),
    {
        match self {
            CrossyRulesetFST::Round(r) => r.screen_y,
            CrossyRulesetFST::RoundCooldown(c) => c.round_state.screen_y,
            _ => 0,
        }
    }

    /// When the lilypads of the round began to drift; time 0 outside a round.
    pub open spec fn spec_river_spawn_times(self) -> RiverSpawnTimes {
        match self {
            CrossyRulesetFST::Round(r) => r.river_spawn_times,
            CrossyRulesetFST::RoundCooldown(c) => c.round_state.river_spawn_times,
            _ => RiverSpawnTimes { start_us: 0 },
        }
    }

    pub fn get_river_spawn_times(&self) -> (r: RiverSpawnTimes)
        ensures
            r == self.spec_river_spawn_times(),
    {
        match self {
            CrossyRulesetFST::Round(r) => r.river_spawn_times,
            CrossyRulesetFST::RoundCooldown(c) => c.round_state.river_spawn_times,
            _ => RiverSpawnTimes { start_us: 0 },
        }
    }

    /// The role of a player. The lobby does not know roles; a winner is the
    /// only one of its match still in the game.
    pub open spec fn spec_player_alive(self, id: PlayerId) -> AliveState {
        match self {
            CrossyRulesetFST::Lobby(_) => AliveState::Unknown,
            CrossyRulesetFST::RoundWarmup(w) => match w.alive_states.spec_get(id) {
                Some(a) => a,
                None => AliveState::NotInGame,
            },
            CrossyRulesetFST::Round(r) => match r.alive_states.spec_get(id) {
                Some(a) => a,
                None => AliveState::NotInGame,
            },
            CrossyRulesetFST::RoundCooldown(c) => match c.round_state.alive_states.spec_get(id) {
                Some(a) => a,
                None => AliveState::NotInGame,
            },
            CrossyRulesetFST::EndWinner(e) => if e.winner_id == id {
                AliveState::Alive
            } else {
                AliveState::NotInGame
            },
        }
    }

    pub fn get_player_alive(&self, id: PlayerId) -> (r: AliveState)
        ensures
            r == self.spec_player_alive(id),
    {
        let slot = match self {
            CrossyRulesetFST::Lobby(_) => {
                return AliveState::Unknown;
            },
            CrossyRulesetFST::RoundWarmup(w) => w.alive_states.get(id),
            CrossyRulesetFST::Round(r) => r.alive_states.get(id),
            CrossyRulesetFST::RoundCooldown(c) => c.round_state.alive_states.get(id),
            CrossyRulesetFST::EndWinner(e) => {
                return if e.winner_id.0 == id.0 {
                    AliveState::Alive
                } else {
                    AliveState::NotInGame
                };
            },
        };
        match slot {
            Some(a) => a,
            None => AliveState::NotInGame,
        }
    }

    /// The crowns won so far, by player.
    pub open spec fn spec_winner_counts(self) -> PlayerIdMap<u8> {
        match self {
            CrossyRulesetFST::RoundWarmup(w) => w.win_counts,
            CrossyRulesetFST::Round(r) => r.win_counts,
            CrossyRulesetFST::RoundCooldown(c) => c.round_state.win_counts,
            CrossyRulesetFST::EndWinner(e) => e.win_counts,
            CrossyRulesetFST::Lobby(_) => PlayerIdMap {
                inner: vstd::array::spec_array_fill_for_copy_type::<Option<u8>, 8>(None),
            },
        }
    }

    pub fn get_winner_counts(&self) -> (r: PlayerIdMap<u8>)
        ensures
            r == self.spec_winner_counts(),
    {
        match self {
            CrossyRulesetFST::RoundWarmup(w) => w.win_counts,
            CrossyRulesetFST::Round(r) => r.win_counts,
            CrossyRulesetFST::RoundCooldown(c) => c.round_state.win_counts,
            CrossyRulesetFST::EndWinner(e) => e.win_counts,
            CrossyRulesetFST::Lobby(_) => PlayerIdMap { inner: [None;8] },
        }
    }

    /// Whether the two states are of the same kind.
    pub open spec fn spec_same_variant(self, other: CrossyRulesetFST) -> bool {
        ||| (self is Lobby && other is Lobby)
        ||| (self is RoundWarmup && other is RoundWarmup)
        ||| (self is Round && other is Round)
        ||| (self is RoundCooldown && other is RoundCooldown)
        ||| (self is EndWinner && other is EndWinner)
    }

    pub fn same_variant(&self, other: &CrossyRulesetFST) -> (r: bool)
        ensures
            r == self.spec_same_variant(*other),
    {
        match (self, other) {
            (CrossyRulesetFST::Lobby(_), CrossyRulesetFST::Lobby(_)) => true,
            (CrossyRulesetFST::RoundWarmup(_), CrossyRulesetFST::RoundWarmup(_)) => true,
            (CrossyRulesetFST::Round(_), CrossyRulesetFST::Round(_)) => true,
            (CrossyRulesetFST::RoundCooldown(_), CrossyRulesetFST::RoundCooldown(_)) => true,
            (CrossyRulesetFST::EndWinner(_), CrossyRulesetFST::EndWinner(_)) => true,
            _ => false,
        }
    }

    /// Whether the rules let the player start a move: everybody in the
    /// lobby, the players of the round while it warms up, the living during
    /// the round, nobody after it.
    pub open spec fn spec_may_move(self, id: PlayerId) -> bool {
        match self {
            CrossyRulesetFST::Lobby(_) => true,
            CrossyRulesetFST::RoundWarmup(w) => w.alive_states.spec_get(id) == Some(
                AliveState::Alive,
            ),
            CrossyRulesetFST::Round(r) => r.alive_states.spec_get(id) == Some(AliveState::Alive),
            _ => false,
        }
    }

    pub fn may_move(&self, id: PlayerId) -> (r: bool)
        ensures
            r == self.spec_may_move(id),
    {
        let slot = match self {
            CrossyRulesetFST::Lobby(_) => {
                return true;
            },
            CrossyRulesetFST::RoundWarmup(w) => w.alive_states.get(id),
            CrossyRulesetFST::Round(r) => r.alive_states.get(id),
            _ => {
                return false;
            },
        };
        match slot {
            Some(AliveState::Alive) => true,
            _ => false,
        }
    }

    /// Whether the player stands on the field for the others: it can be
    /// pushed and it is in the way. The dead and those not in the round are not.
    pub open spec fn spec_present(self, id: PlayerId) -> bool {
        match self {
            CrossyRulesetFST::Lobby(_) => true,
            CrossyRulesetFST::RoundWarmup(w) => w.alive_states.spec_get(id) == Some(
                AliveState::Alive,
            ),
            CrossyRulesetFST::Round(r) => r.alive_states.spec_get(id) == Some(AliveState::Alive),
            CrossyRulesetFST::RoundCooldown(c) => c.round_state.alive_states.spec_get(id) == Some(
                AliveState::Alive,
            ),
            CrossyRulesetFST::EndWinner(e) => e.winner_id == id,
        }
    }

    pub fn present(&self, id: PlayerId) -> (r: bool)
        ensures
            r == self.spec_present(id),
    {
        let slot = match self {
            CrossyRulesetFST::Lobby(_) => {
                return true;
            },
            CrossyRulesetFST::RoundWarmup(w) => w.alive_states.get(id),
            CrossyRulesetFST::Round(r) => r.alive_states.get(id),
            CrossyRulesetFST::RoundCooldown(c) => c.round_state.alive_states.get(id),
            CrossyRulesetFST::EndWinner(e) => {
                return e.winner_id.0 == id.0;
            },
        };
        match slot {
            Some(AliveState::Alive) => true,
            _ => false,
        }
    }

    /// The time that a timed state has left; `None` for the lobby and the
    /// round, which no clock ends.
    pub open spec fn spec_remaining_us(self) -> Option<u32> {
        match self {
            CrossyRulesetFST::RoundWarmup(w) => Some(w.remaining_us),
            CrossyRulesetFST::RoundCooldown(c) => Some(c.remaining_us),
            CrossyRulesetFST::EndWinner(e) => Some(e.remaining_us),
            _ => None,
        }
    }

    /// The state after one tick.
    pub open spec fn spec_tick(self, config: GameConfig, ctx: TickContext) -> CrossyRulesetFST {
        match self {
            CrossyRulesetFST::Lobby(l) => spec_tick_lobby(l, config, ctx),
            CrossyRulesetFST::RoundWarmup(w) => {
                let rem = sat_sub(w.remaining_us, ctx.dt_us);
                if rem == 0 {
                    CrossyRulesetFST::Round(
                        RoundState {
                            round_id: w.round_id,
                            screen_y: 0,
                            alive_states: w.alive_states,
                            river_spawn_times: RiverSpawnTimes { start_us: ctx.time_us },
                            win_counts: w.win_counts,
                        },
                    )
                } else {
                    CrossyRulesetFST::RoundWarmup(WarmupState { remaining_us: rem, ..w })
                }
            },
            CrossyRulesetFST::Round(r) => spec_tick_round(r, ctx),
            CrossyRulesetFST::RoundCooldown(c) => {
                let rem = sat_sub(c.remaining_us, ctx.dt_us);
                if rem == 0 {
                    spec_after_cooldown(c, config, ctx.players)
                } else {
                    CrossyRulesetFST::RoundCooldown(CooldownState { remaining_us: rem, ..c })
                }
            },
            CrossyRulesetFST::EndWinner(e) => {
                let rem = sat_sub(e.remaining_us, ctx.dt_us);
                if rem == 0 {
                    CrossyRulesetFST::spec_start()
                } else {
                    CrossyRulesetFST::EndWinner(EndWinnerState { remaining_us: rem, ..e })
                }
            },
        }
    }
}

/// Whether every player is ready.
pub fn all_ready(players: &PlayerIdMap<PlayerState>) -> (r: bool)
    ensures
        r == spec_all_ready_below(*players, MAX_PLAYERS as int),
{
    let mut i: usize = 0;
    while i < MAX_PLAYERS
        invariant
            i <= MAX_PLAYERS,
            spec_all_ready_below(*players, i as int),
        decreases MAX_PLAYERS - i,
    {
        match players.get_slot(i) {
            Some(p) => {
                if !player_in_lobby_ready_zone(&p) {
                    assert(players.inner[i as int] == Some(p));
                    return false;
                }
            },
            None => {},
        }
        i = i + 1;
    }
    true
}

/// Whether the match may leave the lobby.
pub fn lobby_ready(config: &GameConfig, players: &PlayerIdMap<PlayerState>) -> (r: bool)
    ensures
        r == spec_lobby_ready(*config, *players),
{
    let n = players.count_populated();
    n >= 1 && n >= config.minimum_players as usize && all_ready(players)
}

/// The roles at the start of a round.
pub fn initial_alive(players: &PlayerIdMap<PlayerState>) -> (r: PlayerIdMap<AliveState>)
    ensures
        r == spec_initial_alive(*players, MAX_PLAYERS as int),
{
    let mut alive: PlayerIdMap<AliveState> = PlayerIdMap { inner: [None;8] };
    proof {
        alive.lemma_ext_equal(spec_initial_alive(*players, 0));
    }
    let mut i: usize = 0;
    while i < MAX_PLAYERS
        invariant
            i <= MAX_PLAYERS,
            alive == spec_initial_alive(*players, i as int),
        decreases MAX_PLAYERS - i,
    {
        let role = if players.get_slot(i).is_some() {
            AliveState::Alive
        } else {
            AliveState::NotInGame
        };
        alive.set_slot(i, Some(role));
        i = i + 1;
    }
    alive
}

/// How many players hold the role `what`.
pub fn count_role(alive: &PlayerIdMap<AliveState>, what: AliveState) -> (r: usize)
    ensures
        r == spec_count_role(*alive, what, MAX_PLAYERS as int),
        r <= MAX_PLAYERS,
{
    let mut n: usize = 0;
    let mut i: usize = 0;
    while i < MAX_PLAYERS
        invariant
            i <= MAX_PLAYERS,
            n <= i,
            n == spec_count_role(*alive, what, i as int),
        decreases MAX_PLAYERS - i,
    {
        match alive.get_slot(i) {
            Some(a) => {
                if a == what {
                    n = n + 1;
                }
            },
            None => {},
        }
        i = i + 1;
    }
    n
}

/// The lowest player that holds the role `what`.
pub fn first_role(alive: &PlayerIdMap<AliveState>, what: AliveState) -> (r: Option<PlayerId>)
    ensures
        r == spec_first_role(*alive, what, MAX_PLAYERS as int),
{
    let mut i: usize = 0;
    while i < MAX_PLAYERS
        invariant
            i <= MAX_PLAYERS,
            spec_first_role(*alive, what, i as int) is None,
        decreases MAX_PLAYERS - i,
    {
        match alive.get_slot(i) {
            Some(a) => {
                if a == what {
                    proof {
                        lemma_first_role_stays(*alive, what, i as int + 1, MAX_PLAYERS as int);
                    }
                    return Some(PlayerId(i as u8));
                }
            },
            None => {},
        }
        i = i + 1;
    }
    None
}

/// Once a slot with the role is found, looking at more slots finds the same one.
pub proof fn lemma_first_role_stays(
    alive: PlayerIdMap<AliveState>,
    what: AliveState,
    n: int,
    m: int,
)
    requires
        n <= m,
        spec_first_role(alive, what, n) is Some,
    ensures
        spec_first_role(alive, what, m) == spec_first_role(alive, what, n),
    decreases m - n,
{
    if n < m {
        lemma_first_role_stays(alive, what, n, m - 1);
    }
}

fn all_clear_of_bottom(
    alive: &PlayerIdMap<AliveState>,
    players: &PlayerIdMap<PlayerState>,
    screen_y: i32,
) -> (r: bool)
    ensures
        r == spec_all_clear_of_bottom(*alive, *players, screen_y, MAX_PLAYERS as int),
{
    let mut i: usize = 0;
    while i < MAX_PLAYERS
        invariant
            i <= MAX_PLAYERS,
            spec_all_clear_of_bottom(*alive, *players, screen_y, i as int),
        decreases MAX_PLAYERS - i,
    {
        match alive.get_slot(i) {
            Some(AliveState::Alive) => {
                let clear = match players.get_slot(i) {
                    Some(p) => (p.pos.y() as i64) < screen_y as i64 + (SCREEN_ROWS
                        - SCROLL_MARGIN) as i64,
                    None => false,
                };
                if !clear {
                    assert(alive.inner[i as int] == Some(AliveState::Alive));
                    return false;
                }
            },
            _ => {},
        }
        i = i + 1;
    }
    true
}

fn tick_lobby(l: &LobbyState, config: &GameConfig, ctx: &TickContext) -> (r: CrossyRulesetFST)
    ensures
        r == spec_tick_lobby(*l, *config, *ctx),
{
    let waited: u32 = if l.time_with_all_players_in_ready_zone < u32::MAX {
        l.time_with_all_players_in_ready_zone + 1
    } else {
        u32::MAX
    };
    let n = ctx.players.count_populated();
    let enough = n >= 1 && n >= config.minimum_players as usize;
    let ready = lobby_ready(config, &ctx.players);
    if (config.bypass_lobby && enough) || (ready && waited >= LOBBY_READY_TICKS) {
        CrossyRulesetFST::RoundWarmup(
            WarmupState {
                remaining_us: WARMUP_US,
                round_id: 1,
                alive_states: initial_alive(&ctx.players),
                win_counts: PlayerIdMap { inner: [None;8] },
            },
        )
    } else if ready {
        CrossyRulesetFST::Lobby(LobbyState { time_with_all_players_in_ready_zone: waited })
    } else {
        CrossyRulesetFST::Lobby(LobbyState { time_with_all_players_in_ready_zone: 0 })
    }
}

fn next_alive_states(r: &RoundState, ctx: &TickContext) -> (out: PlayerIdMap<AliveState>)
    ensures
        out == spec_alive_upto(*r, *ctx, MAX_PLAYERS as int),
{
    let mut alive = r.alive_states;
    let mut i: usize = 0;
    while i < MAX_PLAYERS
        invariant
            i <= MAX_PLAYERS,
            alive == spec_alive_upto(*r, *ctx, i as int),
        decreases MAX_PLAYERS - i,
    {
        let next = match r.alive_states.get_slot(i) {
            Some(AliveState::Alive) => match ctx.players.get_slot(i) {
                Some(p) => if doomed(&p, r.round_id, &r.river_spawn_times, ctx.time_us, &ctx.map) {
                    Some(AliveState::Dead)
                } else {
                    Some(AliveState::Alive)
                },
                None => Some(AliveState::NotInGame),
            },
            other => other,
        };
        alive.set_slot(i, next);
        i = i + 1;
    }
    alive
}

fn tick_round(r: &RoundState, ctx: &TickContext) -> (out: CrossyRulesetFST)
    ensures
        out == spec_tick_round(*r, *ctx),
{
    let alive = next_alive_states(r, ctx);
    let living = count_role(&alive, AliveState::Alive);
    let dead = count_role(&alive, AliveState::Dead);
    let screen_y = if living > 0 && all_clear_of_bottom(&alive, &ctx.players, r.screen_y)
        && r.screen_y > i32::MIN {
        r.screen_y - 1
    } else {
        r.screen_y
    };
    let next = RoundState {
        round_id: r.round_id,
        screen_y,
        alive_states: alive,
        river_spawn_times: r.river_spawn_times,
        win_counts: r.win_counts,
    };
    if living == 0 || (living == 1 && dead >= 1) {
        CrossyRulesetFST::RoundCooldown(
            CooldownState { round_state: next, remaining_us: COOLDOWN_US },
        )
    } else {
        CrossyRulesetFST::Round(next)
    }
}

fn after_cooldown(c: &CooldownState, config: &GameConfig, players: &PlayerIdMap<PlayerState>) -> (out:
    CrossyRulesetFST)
    ensures
        out == spec_after_cooldown(*c, *config, *players),
{
    let living = count_role(&c.round_state.alive_states, AliveState::Alive);
    let survivor = if living == 1 {
        first_role(&c.round_state.alive_states, AliveState::Alive)
    } else {
        None
    };
    let mut crowns = c.round_state.win_counts;
    match survivor {
        Some(id) => {
            let had: u8 = match crowns.get(id) {
                Some(n) => n,
                None => 0,
            };
            let has: u8 = if had < 255 {
                had + 1
            } else {
                255
            };
            crowns.set(id, has);
            let now: u8 = match crowns.get(id) {
                Some(n) => n,
                None => 0,
            };
            if now >= config.required_win_count {
                return CrossyRulesetFST::EndWinner(
                    EndWinnerState { winner_id: id, remaining_us: WINNER_US, win_counts: crowns },
                );
            }
        },
        None => {},
    }
    let round_id: u8 = if c.round_state.round_id == 255 {
        1
    } else {
        c.round_state.round_id + 1
    };
    CrossyRulesetFST::RoundWarmup(
        WarmupState {
            remaining_us: WARMUP_US,
            round_id,
            alive_states: initial_alive(players),
            win_counts: crowns,
        },
    )
}

impl CrossyRulesetFST {
    /// Advances the rules by one tick.
    pub fn tick(&self, config: &GameConfig, ctx: &TickContext) -> (r: CrossyRulesetFST)
        ensures
            r == self.spec_tick(*config, *ctx),
    {
        match self {
            CrossyRulesetFST::Lobby(l) => tick_lobby(l, config, ctx),
            CrossyRulesetFST::RoundWarmup(w) => {
                let rem = w.remaining_us.saturating_sub(ctx.dt_us);
                if rem == 0 {
                    CrossyRulesetFST::Round(
                        RoundState {
                            round_id: w.round_id,
                            screen_y: 0,
                            alive_states: w.alive_states,
                            river_spawn_times: RiverSpawnTimes { start_us: ctx.time_us },
                            win_counts: w.win_counts,
                        },
                    )
                } else {
                    CrossyRulesetFST::RoundWarmup(
                        WarmupState {
                            remaining_us: rem,
                            round_id: w.round_id,
                            alive_states: w.alive_states,
                            win_counts: w.win_counts,
                        },
                    )
                }
            },
            CrossyRulesetFST::Round(r) => tick_round(r, ctx),
            CrossyRulesetFST::RoundCooldown(c) => {
                let rem = c.remaining_us.saturating_sub(ctx.dt_us);
                if rem == 0 {
                    after_cooldown(c, config, &ctx.players)
                } else {
                    CrossyRulesetFST::RoundCooldown(
                        CooldownState { round_state: c.round_state, remaining_us: rem },
                    )
                }
            },
            CrossyRulesetFST::EndWinner(e) => {
                let rem = e.remaining_us.saturating_sub(ctx.dt_us);
                if rem == 0 {
                    CrossyRulesetFST::start()
                } else {
                    CrossyRulesetFST::EndWinner(
                        EndWinnerState {
                            winner_id: e.winner_id,
                            remaining_us: rem,
                            win_counts: e.win_counts,
                        },
                    )
                }
            },
        }
    }
}

/// Whether `state` is of the kind of `fst` and timed, with at most `budget`
/// microseconds left, and with some time left where `ticked` holds.
pub open spec fn spec_runs_with(
    state: CrossyRulesetFST,
    fst: CrossyRulesetFST,
    budget: int,
    ticked: bool,
) -> bool {
    state.spec_same_variant(fst) && match state.spec_remaining_us() {
        Some(rem) => rem <= budget && (ticked ==> rem > 0),
        None => false,
    }
}

/// A timed state does not last: a tick that takes time either leaves the
/// state or leaves it less time than it had.
pub proof fn lemma_timed_state_runs_down(
    fst: CrossyRulesetFST,
    config: GameConfig,
    ctx: TickContext,
)
    requires
        fst.spec_remaining_us() is Some,
        ctx.dt_us > 0,
    ensures
        !fst.spec_tick(config, ctx).spec_same_variant(fst) || spec_runs_with(
            fst.spec_tick(config, ctx),
            fst,
            fst.spec_remaining_us()->0 - ctx.dt_us,
            true,
        ),
{
}

/// The state after the ticks `ctxs`, one after the other.
pub open spec fn spec_tick_all(fst: CrossyRulesetFST, config: GameConfig, ctxs: Seq<TickContext>)
    -> CrossyRulesetFST
    decreases ctxs.len(),
{
    if ctxs.len() == 0 {
        fst
    } else {
        spec_tick_all(fst, config, ctxs.drop_last()).spec_tick(config, ctxs.last())
    }
}

/// Whether the state changed its kind at one of the ticks `ctxs`.
pub open spec fn spec_leaves_within(
    fst: CrossyRulesetFST,
    config: GameConfig,
    ctxs: Seq<TickContext>,
) -> bool {
    exists|k: int|
        0 < k <= ctxs.len() && !(#[trigger] spec_tick_all(
            fst,
            config,
            ctxs.subrange(0, k),
        )).spec_same_variant(fst)
}

/// No timed state holds the match for ever: whatever the players do, ticks
/// that each take at least `dt` microseconds and together outlast the time
/// that is left take the match out of a warm-up, a cool-down or a winner's
/// show. The lobby and the round are left when the players make it so.
pub proof fn lemma_timed_state_is_left(
    fst: CrossyRulesetFST,
    config: GameConfig,
    ctxs: Seq<TickContext>,
    dt: u32,
)
    requires
        fst.spec_remaining_us() is Some,
        dt > 0,
        forall|k: int| 0 <= k < ctxs.len() ==> (#[trigger] ctxs[k]).dt_us >= dt,
        ctxs.len() * dt >= fst.spec_remaining_us()->0,
        ctxs.len() > 0,
    ensures
        spec_leaves_within(fst, config, ctxs),
{
    lemma_runs_down_by(fst, config, ctxs, dt);
    if !spec_leaves_within(fst, config, ctxs) {
        let last = spec_tick_all(fst, config, ctxs);
        assert(ctxs.subrange(0, ctxs.len() as int) =~= ctxs);
        assert(last.spec_same_variant(fst));
        assert(false);
    }
}

/// While the state has not been left, every tick took its time off the clock.
pub proof fn lemma_runs_down_by(
    fst: CrossyRulesetFST,
    config: GameConfig,
    ctxs: Seq<TickContext>,
    dt: u32,
)
    requires
        fst.spec_remaining_us() is Some,
        dt > 0,
        forall|k: int| 0 <= k < ctxs.len() ==> (#[trigger] ctxs[k]).dt_us >= dt,
    ensures
        spec_leaves_within(fst, config, ctxs) || spec_runs_with(
            spec_tick_all(fst, config, ctxs),
            fst,
            fst.spec_remaining_us()->0 - ctxs.len() * dt,
            ctxs.len() > 0,
        ),
    decreases ctxs.len(),
{
    if ctxs.len() == 0 {
    } else {
        let before = ctxs.drop_last();
        lemma_runs_down_by(fst, config, before, dt);
        if spec_leaves_within(fst, config, before) {
            let k = choose|k: int|
                0 < k <= before.len() && !(#[trigger] spec_tick_all(
                    fst,
                    config,
                    before.subrange(0, k),
                )).spec_same_variant(fst);
            assert(before.subrange(0, k) =~= ctxs.subrange(0, k));
        } else {
            let mid = spec_tick_all(fst, config, before);
            lemma_timed_state_runs_down(mid, config, ctxs.last());
            let after = mid.spec_tick(config, ctxs.last());
            assert(ctxs.subrange(0, ctxs.len() as int) =~= ctxs);
            if !after.spec_same_variant(mid) {
                assert(!spec_tick_all(
                    fst,
                    config,
                    ctxs.subrange(0, ctxs.len() as int),
                ).spec_same_variant(fst));
            } else {
                assert(ctxs.len() * dt == before.len() * dt + dt) by (nonlinear_arith)
                    requires
                        ctxs.len() == before.len() + 1,
                ;
            }
        }
    }
}

/// Whether two maps hold the same roles.
pub fn same_roles(a: &PlayerIdMap<AliveState>, b: &PlayerIdMap<AliveState>) -> (r: bool)
    ensures
        r == (*a == *b),
{
    let mut i: usize = 0;
    while i < MAX_PLAYERS
        invariant
            i <= MAX_PLAYERS,
            forall|k: int| 0 <= k < i ==> a.inner[k] == b.inner[k],
        decreases MAX_PLAYERS - i,
    {
        let same = match (a.get_slot(i), b.get_slot(i)) {
            (Some(x), Some(y)) => x == y,
            (None, None) => true,
            _ => false,
        };
        if !same {
            return false;
        }
        i = i + 1;
    }
    proof {
        a.lemma_ext_equal(*b);
    }
    true
}

/// Whether two maps hold the same crowns.
pub fn same_counts(a: &PlayerIdMap<u8>, b: &PlayerIdMap<u8>) -> (r: bool)
    ensures
        r == (*a == *b),
{
    let mut i: usize = 0;
    while i < MAX_PLAYERS
        invariant
            i <= MAX_PLAYERS,
            forall|k: int| 0 <= k < i ==> a.inner[k] == b.inner[k],
        decreases MAX_PLAYERS - i,
    {
        let same = match (a.get_slot(i), b.get_slot(i)) {
            (Some(x), Some(y)) => x == y,
            (None, None) => true,
            _ => false,
        };
        if !same {
            return false;
        }
        i = i + 1;
    }
    proof {
        a.lemma_ext_equal(*b);
    }
    true
}

impl RoundState {
    /// Whether two rounds are the same in every field.
    pub fn same_as(&self, other: &RoundState) -> (r: bool)
        ensures
            r == (*self == *other),
    {
        self.round_id == other.round_id && self.screen_y == other.screen_y && same_roles(
            &self.alive_states,
            &other.alive_states,
        ) && self.river_spawn_times == other.river_spawn_times && same_counts(
            &self.win_counts,
            &other.win_counts,
        )
    }
}

impl CrossyRulesetFST {
    /// Whether two states are the same in every field.
    pub fn same_as(&self, other: &CrossyRulesetFST) -> (r: bool)
        ensures
            r == (*self == *other),
    {
        match (self, other) {
            (CrossyRulesetFST::Lobby(a), CrossyRulesetFST::Lobby(b)) => a == b,
            (CrossyRulesetFST::RoundWarmup(a), CrossyRulesetFST::RoundWarmup(b)) => {
                a.remaining_us == b.remaining_us && a.round_id == b.round_id && same_roles(
                    &a.alive_states,
                    &b.alive_states,
                ) && same_counts(&a.win_counts, &b.win_counts)
            },
            (CrossyRulesetFST::Round(a), CrossyRulesetFST::Round(b)) => a.same_as(b),
            (CrossyRulesetFST::RoundCooldown(a), CrossyRulesetFST::RoundCooldown(b)) => {
                a.remaining_us == b.remaining_us && a.round_state.same_as(&b.round_state)
            },
            (CrossyRulesetFST::EndWinner(a), CrossyRulesetFST::EndWinner(b)) => {
                a.winner_id == b.winner_id && a.remaining_us == b.remaining_us && same_counts(
                    &a.win_counts,
                    &b.win_counts,
                )
            },
            _ => false,
        }
    }
}

impl RulesState {
    /// Whether two rule states are the same in every field.
    pub fn same_as(&self, other: &RulesState) -> (r: bool)
        ensures
            r == (*self == *other),
    {
        self.fst.same_as(&other.fst) && self.game_id == other.game_id && self.config
            == other.config
    }
}

/// The first slot with a role is a slot, and holds that role.
pub proof fn lemma_first_role_holds(alive: PlayerIdMap<AliveState>, what: AliveState, n: int)
    requires
        n <= MAX_PLAYERS,
    ensures
        spec_first_role(alive, what, n) matches Some(id) ==> id.0 < n && alive.inner[id.0 as int]
            == Some(what),
        spec_first_role(alive, what, n) is None ==> spec_count_role(alive, what, n) == 0,
    decreases n,
{
    if n > 0 {
        lemma_first_role_holds(alive, what, n - 1);
    }
}

/// Who is awarded the crown lives, and is the only one who does. Where
/// several die in one tick and nobody is left, nobody is awarded.
pub proof fn lemma_survivor_is_the_last_alive(alive: PlayerIdMap<AliveState>)
    ensures
        spec_survivor(alive) matches Some(id) ==> alive.spec_get(id) == Some(AliveState::Alive)
            && spec_count_role(alive, AliveState::Alive, MAX_PLAYERS as int) == 1,
        spec_count_role(alive, AliveState::Alive, MAX_PLAYERS as int) == 0 ==> spec_survivor(alive)
            is None,
        spec_count_role(alive, AliveState::Alive, MAX_PLAYERS as int) == 1 ==> spec_survivor(alive)
            is Some,
{
    lemma_first_role_holds(alive, AliveState::Alive, MAX_PLAYERS as int);
}

/// Whether `state` is a lobby in which the players have been ready for at
/// least `ticks` ticks, and for less than it takes to start.
pub open spec fn spec_lobby_waits(state: CrossyRulesetFST, ticks: int) -> bool {
    match state {
        CrossyRulesetFST::Lobby(l) => ticks <= l.time_with_all_players_in_ready_zone
            < LOBBY_READY_TICKS,
        _ => false,
    }
}

/// While the players stay ready, every tick in the lobby counts.
pub proof fn lemma_lobby_counts(fst: CrossyRulesetFST, config: GameConfig, ctxs: Seq<TickContext>)
    requires
        fst is Lobby,
        ctxs.len() > 0,
        forall|k: int| 0 <= k < ctxs.len() ==> spec_lobby_ready(config, (#[trigger] ctxs[k]).players),
    ensures
        spec_leaves_within(fst, config, ctxs) || spec_lobby_waits(
            spec_tick_all(fst, config, ctxs),
            ctxs.len() as int,
        ),
    decreases ctxs.len(),
{
    let before = ctxs.drop_last();
    assert(ctxs.subrange(0, ctxs.len() as int) =~= ctxs);
    if before.len() == 0 {
        assert(spec_tick_all(fst, config, before) == fst);
        assert(spec_lobby_ready(config, ctxs[ctxs.len() - 1].players));
    } else {
        assert forall|k: int| 0 <= k < before.len() implies spec_lobby_ready(
            config,
            (#[trigger] before[k]).players,
        ) by {
            assert(before[k] == ctxs[k]);
        }
        lemma_lobby_counts(fst, config, before);
        if spec_leaves_within(fst, config, before) {
            let k = choose|k: int|
                0 < k <= before.len() && !(#[trigger] spec_tick_all(
                    fst,
                    config,
                    before.subrange(0, k),
                )).spec_same_variant(fst);
            assert(before.subrange(0, k) =~= ctxs.subrange(0, k));
        } else {
            assert(spec_lobby_ready(config, ctxs[ctxs.len() - 1].players));
        }
    }
}

/// The lobby does not hold players that are ready: with enough players,
/// all of them ready at every tick, the match leaves the lobby within
/// `LOBBY_READY_TICKS` ticks. A lobby whose players are not ready, or too
/// few, is left only when they make it so.
pub proof fn lemma_ready_lobby_is_left(
    fst: CrossyRulesetFST,
    config: GameConfig,
    ctxs: Seq<TickContext>,
)
    requires
        fst is Lobby,
        ctxs.len() >= LOBBY_READY_TICKS,
        forall|k: int| 0 <= k < ctxs.len() ==> spec_lobby_ready(config, (#[trigger] ctxs[k]).players),
    ensures
        spec_leaves_within(fst, config, ctxs),
{
    lemma_lobby_counts(fst, config, ctxs);
}

/// A round is over as soon as at most one of several players lives, or
/// nobody does: the tick at which that is so leaves the round. A round in
/// which several players stay alive lasts as long as they do.
pub proof fn lemma_decided_round_is_left(r: RoundState, config: GameConfig, ctx: TickContext)
    requires
        spec_round_over(spec_alive_upto(r, ctx, MAX_PLAYERS as int)),
    ensures
        CrossyRulesetFST::Round(r).spec_tick(config, ctx) is RoundCooldown,
{
}

} // verus!
