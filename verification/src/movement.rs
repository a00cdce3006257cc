//! How inputs become moves: walls, lilypads, and pushing.

use vstd::prelude::*;
use crate::crossy_ruleset::CrossyRulesetFST;
use crate::game::CoordPos;
use crate::game::Input;
use crate::game::MoveState;
use crate::game::PlayerInputs;
use crate::game::PlayerState;
use crate::game::Pos;
use crate::game::PreciseCoords;
use crate::map::spec_row_type;
use crate::map::GameMap;
use crate::map::RowType;
use crate::player_id_map::PlayerId;
use crate::player_id_map::PlayerIdMap;
use crate::player_id_map::MAX_PLAYERS;

verus! {

/// What the rules of movement look at besides the players: the map, the
/// state of the match before the tick, and the time of the new snapshot.
#[derive(Clone, Copy, Debug)]
pub struct MoveContext {
    pub map: GameMap,
    pub fst: CrossyRulesetFST,
    pub time_us: u32,
}

impl MoveContext {
    /// The starting barrier is closed while a round warms up.
    pub open spec fn spec_barrier_up(self) -> bool {
        self.fst is RoundWarmup
    }

    pub fn barrier_up(&self) -> (r: bool)
        ensures
            r == self.spec_barrier_up(),
    {
        match self.fst {
            CrossyRulesetFST::RoundWarmup(_) => true,
            _ => false,
        }
    }
}

/// Whether the player stands at `target` or is on its way there.
pub open spec fn spec_holds(p: PlayerState, target: Pos) -> bool {
    p.pos == target || (p.move_state matches MoveState::Moving(m) && m.target == target)
}

pub fn holds(p: &PlayerState, target: Pos) -> (r: bool)
    ensures
        r == spec_holds(*p, target),
{
    if p.pos == target {
        return true;
    }
    match p.move_state {
        MoveState::Moving(m) => m.target == target,
        MoveState::Stationary => false,
    }
}

/// Whether the player in slot `j` is in the way at `target` for the player
/// in slot `except`.
pub open spec fn spec_in_the_way(
    players: PlayerIdMap<PlayerState>,
    fst: CrossyRulesetFST,
    target: Pos,
    except: int,
    j: int,
) -> bool {
    j != except && 0 <= j < MAX_PLAYERS && fst.spec_present(PlayerId(j as u8)) && (
    players.inner[j] matches Some(q) && spec_holds(q, target))
}

/// The lowest slot at or after `from` whose player is in the way at `target`.
pub open spec fn spec_occupant_from(
    players: PlayerIdMap<PlayerState>,
    fst: CrossyRulesetFST,
    target: Pos,
    except: int,
    from: int,
) -> Option<int>
    decreases MAX_PLAYERS - from,
{
    if from < 0 || from >= MAX_PLAYERS {
        None
    } else if spec_in_the_way(players, fst, target, except, from) {
        Some(from)
    } else {
        spec_occupant_from(players, fst, target, except, from + 1)
    }
}

/// The player that is in the way at `target`, if any.
pub open spec fn spec_occupant(
    players: PlayerIdMap<PlayerState>,
    fst: CrossyRulesetFST,
    target: Pos,
    except: int,
) -> Option<int> {
    spec_occupant_from(players, fst, target, except, 0)
}

/// An occupant is a slot of the map, holds a player, and is not `except`.
pub proof fn lemma_occupant_is_player(
    players: PlayerIdMap<PlayerState>,
    fst: CrossyRulesetFST,
    target: Pos,
    except: int,
    from: int,
)
    ensures
        spec_occupant_from(players, fst, target, except, from) matches Some(j) ==> (0 <= j
            < MAX_PLAYERS && j != except && players.inner[j] is Some),
    decreases MAX_PLAYERS - from,
{
    if from < 0 || from >= MAX_PLAYERS {
    } else if spec_in_the_way(players, fst, target, except, from) {
    } else {
        lemma_occupant_is_player(players, fst, target, except, from + 1);
    }
}

pub fn occupant(
    players: &PlayerIdMap<PlayerState>,
    fst: &CrossyRulesetFST,
    target: Pos,
    except: usize,
) -> (r: Option<usize>)
    ensures
        match r {
            Some(j) => spec_occupant(*players, *fst, target, except as int) == Some(j as int) && j
                < MAX_PLAYERS && j != except && players.inner[j as int] is Some,
            None => spec_occupant(*players, *fst, target, except as int) is None,
        },
{
    let mut j: usize = 0;
    while j < MAX_PLAYERS
        invariant
            j <= MAX_PLAYERS,
            spec_occupant(*players, *fst, target, except as int) == spec_occupant_from(
                *players,
                *fst,
                target,
                except as int,
                j as int,
            ),
        decreases MAX_PLAYERS - j,
    {
        if j != except && fst.present(PlayerId(j as u8)) {
            match players.get_slot(j) {
                Some(q) => {
                    if holds(&q, target) {
                        return Some(j);
                    }
                },
                None => {},
            }
        }
        j = j + 1;
    }
    None
}

/// Where a move of the player begins, to the thousandth of a tile: its tile,
/// or the place of the lilypad that carries it; `None` where that lilypad is gone.
pub open spec fn spec_origin(p: PlayerState, ctx: MoveContext) -> Option<PreciseCoords> {
    match p.pos {
        Pos::Coord(c) => Some(c.spec_to_precise()),
        Pos::Lillipad(l) => match ctx.map.spec_lillipad_screen_x(
            ctx.fst.spec_round_id(),
            ctx.fst.spec_river_spawn_times(),
            ctx.time_us,
            l,
        ) {
            Some(x) => Some(PreciseCoords { x: x as i32, y: l.y }),
            None => None,
        },
    }
}

pub fn origin(p: &PlayerState, ctx: &MoveContext) -> (r: Option<PreciseCoords>)
    ensures
        r == spec_origin(*p, *ctx),
{
    match p.pos {
        Pos::Coord(c) => Some(c.to_precise()),
        Pos::Lillipad(l) => match ctx.map.get_lillipad_screen_x(
            ctx.fst.get_round_id(),
            &ctx.fst.get_river_spawn_times(),
            ctx.time_us,
            &l,
        ) {
            Some(x) => Some(PreciseCoords { x, y: l.y }),
            None => None,
        },
    }
}

/// The players after the player in slot `i` has started a move onto a
/// river row at `tp`: it jumps onto the lilypad there, where there is one and
/// nobody else has it.
pub open spec fn spec_jump(
    players: PlayerIdMap<PlayerState>,
    i: int,
    p: PlayerState,
    tp: PreciseCoords,
    ctx: MoveContext,
) -> PlayerIdMap<PlayerState> {
    match ctx.map.spec_lillipad_at_pos(
        ctx.fst.spec_round_id(),
        ctx.fst.spec_river_spawn_times(),
        ctx.time_us,
        tp,
    ) {
        None => players,
        Some(l) => if spec_occupant(players, ctx.fst, Pos::Lillipad(l), i) is Some {
            players
        } else {
            players.spec_with_slot(i, Some(p.spec_start_move(Pos::Lillipad(l))))
        },
    }
}

/// The players after the player in slot `i` has tried to push the resting
/// player in slot `j` off the tile `t`. The pushed player moves one tile on,
/// off the field too; the push fails where a wall or a third player is in
/// the way, or where the player in the way is itself on the move.
pub open spec fn spec_push(
    players: PlayerIdMap<PlayerState>,
    i: int,
    p: PlayerState,
    j: int,
    t: CoordPos,
    input: Input,
    ctx: MoveContext,
) -> PlayerIdMap<PlayerState> {
    let q = players.inner[j]->0;
    let to = t.spec_apply_input(input);
    if !(q.move_state is Stationary) || to == t {
        players
    } else if to.spec_on_field() && (ctx.map.spec_blocked(
        ctx.fst.spec_round_id(),
        to,
        ctx.spec_barrier_up(),
    ) || spec_occupant(players, ctx.fst, Pos::Coord(to), j) is Some) {
        players
    } else {
        players.spec_with_slot(
            j,
            Some(
                PlayerState {
                    pushed_by: Some(PlayerId(i as u8)),
                    ..q.spec_start_move(Pos::Coord(to))
                },
            ),
        ).spec_with_slot(
            i,
            Some(
                PlayerState {
                    pushing: Some(PlayerId(j as u8)),
                    ..p.spec_start_move(Pos::Coord(t))
                },
            ),
        )
    }
}

/// The players after the player in slot `i` has started a move onto the
/// tile `t` of a row that is no river.
pub open spec fn spec_step(
    players: PlayerIdMap<PlayerState>,
    i: int,
    p: PlayerState,
    t: CoordPos,
    input: Input,
    ctx: MoveContext,
) -> PlayerIdMap<PlayerState> {
    if ctx.map.spec_blocked(ctx.fst.spec_round_id(), t, ctx.spec_barrier_up()) {
        players
    } else {
        match spec_occupant(players, ctx.fst, Pos::Coord(t), i) {
            None => players.spec_with_slot(i, Some(p.spec_start_move(Pos::Coord(t)))),
            Some(j) => spec_push(players, i, p, j, t, input, ctx),
        }
    }
}

/// The players after the input of the player in slot `i` has been applied.
/// An input is dropped unless the slot holds a player that rests, has no
/// cooldown left and may move by the rules.
pub open spec fn spec_apply_move(
    players: PlayerIdMap<PlayerState>,
    i: int,
    input: Input,
    ctx: MoveContext,
) -> PlayerIdMap<PlayerState> {
    if !(0 <= i < MAX_PLAYERS) {
        players
    } else {
        match players.inner[i] {
            None => players,
            Some(p) => if input == Input::NoInput || !p.spec_can_move() || !ctx.fst.spec_may_move(
                PlayerId(i as u8),
            ) {
                players
            } else {
                match spec_origin(p, ctx) {
                    None => players,
                    Some(o) => {
                        let tp = o.spec_apply_input(input);
                        if spec_row_type(ctx.map.seed, ctx.fst.spec_round_id(), tp.y) is River {
                            spec_jump(players, i, p, tp, ctx)
                        } else {
                            spec_step(players, i, p, tp.spec_to_coord(), input, ctx)
                        }
                    },
                }
            },
        }
    }
}

/// The players after the inputs of the first `n` slots have been applied,
/// lowest slot first.
pub open spec fn spec_moves_upto(
    players: PlayerIdMap<PlayerState>,
    inputs: PlayerInputs,
    ctx: MoveContext,
    n: int,
) -> PlayerIdMap<PlayerState>
    decreases n,
{
    if n <= 0 {
        players
    } else {
        spec_apply_move(
            spec_moves_upto(players, inputs, ctx, n - 1),
            n - 1,
            inputs.inputs[n - 1],
            ctx,
        )
    }
}

/// The players after `dt_us` microseconds have passed for the first `n` slots.
pub open spec fn spec_timers_upto(players: PlayerIdMap<PlayerState>, dt_us: u32, n: int)
    -> PlayerIdMap<PlayerState>
    decreases n,
{
    if n <= 0 {
        players
    } else {
        spec_timers_upto(players, dt_us, n - 1).spec_with_slot(
            n - 1,
            match players.inner[n - 1] {
                Some(p) => Some(p.spec_tick_timers(dt_us)),
                None => None,
            },
        )
    }
}

/// The first `n` players put back on `row`, side by side from column 6 on,
/// at rest and not ready.
pub open spec fn spec_lined_up_upto(players: PlayerIdMap<PlayerState>, row: i32, n: int)
    -> PlayerIdMap<PlayerState>
    decreases n,
{
    if n <= 0 {
        players
    } else {
        spec_lined_up_upto(players, row, n - 1).spec_with_slot(
            n - 1,
            match players.inner[n - 1] {
                Some(p) => Some(
                    PlayerState::spec_new(p.id, Pos::Coord(CoordPos { x: (6 + n - 1) as i32, y: row })),
                ),
                None => None,
            },
        )
    }
}

/// Lets `dt_us` microseconds pass for every player.
pub fn tick_all_timers(players: &PlayerIdMap<PlayerState>, dt_us: u32) -> (r: PlayerIdMap<
    PlayerState,
>)
    ensures
        r == spec_timers_upto(*players, dt_us, MAX_PLAYERS as int),
{
    let mut out = *players;
    let mut i: usize = 0;
    while i < MAX_PLAYERS
        invariant
            i <= MAX_PLAYERS,
            out == spec_timers_upto(*players, dt_us, i as int),
        decreases MAX_PLAYERS - i,
    {
        let next = match players.get_slot(i) {
            Some(p) => Some(p.tick_timers(dt_us)),
            None => None,
        };
        out.set_slot(i, next);
        i = i + 1;
    }
    out
}

/// Puts every player back on `row`.
pub fn line_up(players: &PlayerIdMap<PlayerState>, row: i32) -> (r: PlayerIdMap<PlayerState>)
    ensures
        r == spec_lined_up_upto(*players, row, MAX_PLAYERS as int),
{
    let mut out = *players;
    let mut i: usize = 0;
    while i < MAX_PLAYERS
        invariant
            i <= MAX_PLAYERS,
            out == spec_lined_up_upto(*players, row, i as int),
        decreases MAX_PLAYERS - i,
    {
        let next = match players.get_slot(i) {
            Some(p) => Some(PlayerState::new(p.id, Pos::new_coord(6 + i as i32, row))),
            None => None,
        };
        out.set_slot(i, next);
        i = i + 1;
    }
    out
}

fn jump(
    players: &PlayerIdMap<PlayerState>,
    i: usize,
    p: &PlayerState,
    tp: PreciseCoords,
    ctx: &MoveContext,
) -> (r: PlayerIdMap<PlayerState>)
    requires
        i < MAX_PLAYERS,
    ensures
        r == spec_jump(*players, i as int, *p, tp, *ctx),
{
    match ctx.map.lillipad_at_pos(
        ctx.fst.get_round_id(),
        &ctx.fst.get_river_spawn_times(),
        ctx.time_us,
        tp,
    ) {
        None => *players,
        Some(l) => {
            if occupant(players, &ctx.fst, Pos::Lillipad(l), i).is_some() {
                *players
            } else {
                let mut out = *players;
                out.set_slot(i, Some(p.start_move(Pos::Lillipad(l))));
                out
            }
        },
    }
}

fn push(
    players: &PlayerIdMap<PlayerState>,
    i: usize,
    p: &PlayerState,
    j: usize,
    t: CoordPos,
    input: Input,
    ctx: &MoveContext,
) -> (r: PlayerIdMap<PlayerState>)
    requires
        i < MAX_PLAYERS,
        j < MAX_PLAYERS,
        players.inner[j as int] is Some,
    ensures
        r == spec_push(*players, i as int, *p, j as int, t, input, *ctx),
{
    let q = match players.get_slot(j) {
        Some(q) => q,
        None => {
            return *players;
        },
    };
    let to = t.apply_input(input);
    let resting = match q.move_state {
        MoveState::Stationary => true,
        MoveState::Moving(_) => false,
    };
    if !resting || to == t {
        return *players;
    }
    if to.on_field() && (ctx.map.blocked(ctx.fst.get_round_id(), to, ctx.barrier_up())
        || occupant(players, &ctx.fst, Pos::Coord(to), j).is_some()) {
        return *players;
    }
    let mut pushed = q.start_move(Pos::Coord(to));
    pushed.pushed_by = Some(PlayerId(i as u8));
    let mut pusher = p.start_move(Pos::Coord(t));
    pusher.pushing = Some(PlayerId(j as u8));
    let mut out = *players;
    out.set_slot(j, Some(pushed));
    out.set_slot(i, Some(pusher));
    out
}

fn step(
    players: &PlayerIdMap<PlayerState>,
    i: usize,
    p: &PlayerState,
    t: CoordPos,
    input: Input,
    ctx: &MoveContext,
) -> (r: PlayerIdMap<PlayerState>)
    requires
        i < MAX_PLAYERS,
    ensures
        r == spec_step(*players, i as int, *p, t, input, *ctx),
{
    if ctx.map.blocked(ctx.fst.get_round_id(), t, ctx.barrier_up()) {
        return *players;
    }
    match occupant(players, &ctx.fst, Pos::Coord(t), i) {
        None => {
            let mut out = *players;
            out.set_slot(i, Some(p.start_move(Pos::Coord(t))));
            out
        },
        Some(j) => push(players, i, p, j, t, input, ctx),
    }
}

/// Applies the input of the player in slot `i`.
pub fn apply_move(players: &PlayerIdMap<PlayerState>, i: usize, input: Input, ctx: &MoveContext)
    -> (r: PlayerIdMap<PlayerState>)
    ensures
        r == spec_apply_move(*players, i as int, input, *ctx),
{
    if i >= MAX_PLAYERS {
        return *players;
    }
    let p = match players.get_slot(i) {
        Some(p) => p,
        None => {
            return *players;
        },
    };
    if input == Input::NoInput || !p.can_move() || !ctx.fst.may_move(PlayerId(i as u8)) {
        return *players;
    }
    match origin(&p, ctx) {
        None => *players,
        Some(o) => {
            let tp = o.apply_input(input);
            match ctx.map.get_row(ctx.fst.get_round_id(), tp.y).row_type {
                RowType::River(_) => jump(players, i, &p, tp, ctx),
                _ => step(players, i, &p, tp.to_coord(), input, ctx),
            }
        },
    }
}

/// Applies the inputs of all players, lowest slot first.
pub fn apply_all_moves(players: &PlayerIdMap<PlayerState>, inputs: &PlayerInputs, ctx: &MoveContext)
    -> (r: PlayerIdMap<PlayerState>)
    ensures
        r == spec_moves_upto(*players, *inputs, *ctx, MAX_PLAYERS as int),
{
    let mut out = *players;
    let mut i: usize = 0;
    while i < MAX_PLAYERS
        invariant
            i <= MAX_PLAYERS,
            out == spec_moves_upto(*players, *inputs, *ctx, i as int),
        decreases MAX_PLAYERS - i,
    {
        out = apply_move(&out, i, inputs.inputs[i], ctx);
        i = i + 1;
    }
    out
}

/// An input is dropped, not kept for later, while its player is on the
/// move or rests from a move; and a player that asks for nothing changes
/// nothing.
pub proof fn lemma_input_dropped_unless_free(
    players: PlayerIdMap<PlayerState>,
    i: int,
    input: Input,
    ctx: MoveContext,
)
    requires
        0 <= i < MAX_PLAYERS,
        match players.inner[i] {
            Some(p) => input == Input::NoInput || p.move_state is Moving || p.move_cooldown > 0,
            None => true,
        },
    ensures
        spec_apply_move(players, i, input, ctx) == players,
{
}

/// A move changes the slots of at most two players: the one that moves and
/// the one that it pushes. Nobody is put into the game and nobody taken out.
pub proof fn lemma_move_keeps_the_players(
    players: PlayerIdMap<PlayerState>,
    i: int,
    input: Input,
    ctx: MoveContext,
    k: int,
)
    requires
        0 <= i < MAX_PLAYERS,
        0 <= k < MAX_PLAYERS,
    ensures
        spec_apply_move(players, i, input, ctx).inner[k] is Some <==> players.inner[k] is Some,
        spec_apply_move(players, i, input, ctx).inner[k] matches Some(q) ==> q.id
            == players.inner[k]->0.id && q.pos == players.inner[k]->0.pos,
{
    match players.inner[i] {
        Some(p) => {
            match spec_origin(p, ctx) {
                Some(o) => {
                    let tp = o.spec_apply_input(input);
                    let t = tp.spec_to_coord();
                    lemma_occupant_is_player(players, ctx.fst, Pos::Coord(t), i, 0);
                },
                None => {},
            }
        },
        None => {},
    }
}

} // verus!
