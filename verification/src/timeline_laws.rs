//! What holds of every timeline: the ring invariant, and that propagating
//! inputs and rebasing are well behaved.

use vstd::prelude::*;
use crate::game::spec_edited;
use crate::game::spec_edited_upto;
use crate::game::spec_no_edits;
use crate::game::GameState;
use crate::game::PlayerState;
use crate::game::Pos;
use crate::game::SlotEdit;
use crate::game::Input;
use crate::game::PlayerInputs;
use crate::map::GameMap;
use crate::player_id_map::PlayerId;
use crate::player_id_map::PlayerIdMap;
use crate::player_id_map::MAX_PLAYERS;
use crate::crossy_ruleset::GameConfig;
use crate::timeline::spec_contiguous;
use crate::timeline::spec_single;
use crate::timeline::spec_replay;
use crate::timeline::spec_replay_one;
use crate::timeline::RemoteInput;
use crate::timeline::TimelineView;
use crate::timeline::PENDING_HORIZON;
use crate::timeline::TICK_INTERVAL_US;

verus! {

/// Whether `out` is `st` with its `k` newest snapshots computed again: the
/// older ones are those of `st`, and each of the `k` newest follows from the
/// one before it with the inputs, the clock and the edits that `st` holds
/// for its frame.
pub open spec fn spec_is_replay_of(
    out: Seq<GameState>,
    st: Seq<GameState>,
    map: GameMap,
    k: int,
) -> bool {
    &&& out.len() == st.len()
    &&& forall|j: int| k <= j < st.len() && 0 <= j ==> #[trigger] out[j] == st[j]
    &&& forall|j: int|
        0 <= j < k && j + 1 < st.len() ==> #[trigger] out[j] == out[j + 1].spec_resimulate(st[j], map)
}

/// Replaying gives what `spec_is_replay_of` describes.
pub proof fn lemma_replay_is_replay(st: Seq<GameState>, map: GameMap, k: int)
    requires
        0 <= k < st.len(),
    ensures
        spec_is_replay_of(spec_replay(st, map, k), st, map, k),
    decreases k,
{
    if k > 0 {
        let one = spec_replay_one(st, map, k - 1);
        let st1 = st.update(k - 1, one);
        lemma_replay_is_replay(st1, map, k - 1);
        let out = spec_replay(st1, map, k - 1);
        assert(out == spec_replay(st, map, k));
        assert(out[k - 1] == st1[k - 1]);
        assert(out[k] == st1[k]);
        assert forall|j: int| 0 <= j < k && j + 1 < st.len() implies #[trigger] out[j] == out[j + 1].spec_resimulate(st[j], map) by {
            if j < k - 1 {
                assert(st1[j] == st[j]);
            }
        }
        assert forall|j: int| k <= j < st.len() && 0 <= j implies #[trigger] out[j] == st[j] by {
            assert(out[j] == st1[j]);
        }
    }
}

/// Only one sequence is the replay of `st`.
pub proof fn lemma_replay_unique(
    a: Seq<GameState>,
    b: Seq<GameState>,
    st: Seq<GameState>,
    map: GameMap,
    k: int,
)
    requires
        0 <= k < st.len(),
        spec_is_replay_of(a, st, map, k),
        spec_is_replay_of(b, st, map, k),
    ensures
        a == b,
{
    assert forall|j: int| 0 <= j < st.len() implies a[j] == b[j] by {
        lemma_replay_agrees_at(a, b, st, map, k, j);
    }
    assert(a =~= b);
}

/// Two replays of `st` agree at every snapshot.
pub proof fn lemma_replay_agrees_at(
    a: Seq<GameState>,
    b: Seq<GameState>,
    st: Seq<GameState>,
    map: GameMap,
    k: int,
    j: int,
)
    requires
        0 <= k < st.len(),
        0 <= j < st.len(),
        spec_is_replay_of(a, st, map, k),
        spec_is_replay_of(b, st, map, k),
    ensures
        a[j] == b[j],
    decreases st.len() - j,
{
    if j >= k {
        assert(a[j] == st[j]);
        assert(b[j] == st[j]);
    } else {
        lemma_replay_agrees_at(a, b, st, map, k, j + 1);
        assert(a[j] == a[j + 1].spec_resimulate(st[j], map));
        assert(b[j] == b[j + 1].spec_resimulate(st[j], map));
    }
}

/// A replay keeps the frame, the clock, the inputs and the edits of every snapshot.
pub proof fn lemma_replay_keeps_clock(
    out: Seq<GameState>,
    st: Seq<GameState>,
    map: GameMap,
    k: int,
    j: int,
)
    requires
        0 <= k < st.len(),
        0 <= j < st.len(),
        spec_contiguous(st),
        spec_is_replay_of(out, st, map, k),
    ensures
        out[j].frame_id == st[j].frame_id,
        out[j].time_us == st[j].time_us,
        out[j].player_inputs == st[j].player_inputs,
        out[j].edits == st[j].edits,
    decreases st.len() - j,
{
    if j >= k {
        assert(out[j] == st[j]);
    } else {
        lemma_replay_keeps_clock(out, st, map, k, j + 1);
        assert(out[j] == out[j + 1].spec_resimulate(st[j], map));
        assert(st[j].frame_id + j == st[0].frame_id);
        assert(st[j + 1].frame_id + (j + 1) == st[0].frame_id);
    }
}

/// Replaying keeps the ring invariant.
pub proof fn lemma_replay_keeps_ring(st: Seq<GameState>, map: GameMap, k: int)
    requires
        0 <= k < st.len(),
        spec_contiguous(st),
    ensures
        spec_contiguous(spec_replay(st, map, k)),
        spec_replay(st, map, k).len() == st.len(),
{
    let out = spec_replay(st, map, k);
    lemma_replay_is_replay(st, map, k);
    lemma_replay_keeps_clock(out, st, map, k, 0);
    assert forall|i: int| 0 <= i < out.len() implies (#[trigger] out[i]).frame_id + i
        == out[0].frame_id by {
        lemma_replay_keeps_clock(out, st, map, k, i);
        assert(st[i].frame_id + i == st[0].frame_id);
    }
}

/// Replaying twice is replaying once.
pub proof fn lemma_replay_idempotent(st: Seq<GameState>, map: GameMap, k: int)
    requires
        0 <= k < st.len(),
        spec_contiguous(st),
    ensures
        spec_replay(spec_replay(st, map, k), map, k) == spec_replay(st, map, k),
{
    let out = spec_replay(st, map, k);
    lemma_replay_is_replay(st, map, k);
    lemma_replay_is_replay(out, map, k);
    assert(spec_is_replay_of(out, out, map, k)) by {
        assert forall|j: int| 0 <= j < k && j + 1 < out.len() implies #[trigger] out[j] == out[j + 1].spec_resimulate(out[j], map) by {
            lemma_replay_keeps_clock(out, st, map, k, j);
        }
    }
    lemma_replay_unique(spec_replay(out, map, k), out, out, map, k);
}

/// One place in which a timeline holds an input: the slot of a player in
/// the inputs of a snapshot, or in the inputs that wait for a frame.
pub enum Cell {
    History { index: int, slot: int },
    Pending { ahead: int, slot: int },
}

/// Whether the timeline has the cell.
pub open spec fn spec_cell_valid(v: TimelineView, c: Cell) -> bool {
    match c {
        Cell::History { index, slot } => 0 <= index < v.states.len() && 0 <= slot < MAX_PLAYERS,
        Cell::Pending { ahead, slot } => 0 <= ahead < PENDING_HORIZON && 0 <= slot < MAX_PLAYERS,
    }
}

/// What the cell holds. A snapshot always holds an input; the waiting
/// inputs hold one or none.
pub open spec fn spec_cell(v: TimelineView, c: Cell) -> Option<Input> {
    match c {
        Cell::History { index, slot } => Some(v.states[index].player_inputs.inputs[slot]),
        Cell::Pending { ahead, slot } => v.pending[ahead].inner[slot],
    }
}

/// Whether storing the input `d` in the timeline writes the cell.
pub open spec fn spec_writes(v: TimelineView, d: RemoteInput, c: Cell) -> bool {
    match c {
        Cell::History { index, slot } => v.spec_hits_history(d) && v.top().frame_id - d.frame_id
            == index && d.player_id.0 == slot,
        Cell::Pending { ahead, slot } => v.spec_hits_pending(d) && d.frame_id - v.top().frame_id
            - 1 == ahead && d.player_id.0 == slot,
    }
}

/// The input that the last of the first `n` inputs to write the cell puts
/// there, if any of them writes it.
pub open spec fn spec_last_write(v: TimelineView, ds: Seq<RemoteInput>, n: int, c: Cell) -> Option<
    Input,
>
    decreases n,
{
    if n <= 0 {
        None
    } else if spec_writes(v, ds[n - 1], c) {
        Some(ds[n - 1].input)
    } else {
        spec_last_write(v, ds, n - 1, c)
    }
}

/// What the cell holds after the first `n` inputs have been stored.
pub open spec fn spec_cell_after(v: TimelineView, ds: Seq<RemoteInput>, n: int, c: Cell) -> Option<
    Input,
> {
    match spec_last_write(v, ds, n, c) {
        Some(x) => Some(x),
        None => spec_cell(v, c),
    }
}

/// Whether two snapshots differ in their inputs at most.
pub open spec fn spec_same_but_inputs(a: GameState, b: GameState) -> bool {
    a == (GameState { player_inputs: a.player_inputs, ..b })
}

/// Whether two timelines have the same window: as many snapshots, and the
/// same newest frame.
pub open spec fn spec_same_window(a: TimelineView, b: TimelineView) -> bool {
    a.states.len() == b.states.len() && a.pending.len() == b.pending.len() && a.top().frame_id
        == b.top().frame_id
}

/// Whether `out` is `v` with the first `n` inputs stored: nothing but
/// inputs has changed, and every cell holds what was written to it last.
pub open spec fn spec_is_stored(
    out: TimelineView,
    v: TimelineView,
    ds: Seq<RemoteInput>,
    n: int,
) -> bool {
    &&& out.map == v.map
    &&& spec_same_window(out, v)
    &&& forall|i: int|
        0 <= i < v.states.len() ==> spec_same_but_inputs(#[trigger] out.states[i], v.states[i])
    &&& forall|c: Cell|
        spec_cell_valid(v, c) ==> #[trigger] spec_cell(out, c) == spec_cell_after(v, ds, n, c)
}

/// What is written depends on the window of the timeline alone.
pub proof fn lemma_last_write_by_window(
    a: TimelineView,
    b: TimelineView,
    ds: Seq<RemoteInput>,
    n: int,
    c: Cell,
)
    requires
        spec_same_window(a, b),
    ensures
        spec_last_write(a, ds, n, c) == spec_last_write(b, ds, n, c),
    decreases n,
{
    if n > 0 {
        lemma_last_write_by_window(a, b, ds, n - 1, c);
    }
}

/// How many snapshots the inputs reach depends on the window alone.
pub proof fn lemma_depth_by_window(a: TimelineView, b: TimelineView, ds: Seq<RemoteInput>, n: int)
    requires
        spec_same_window(a, b),
    ensures
        a.spec_replay_depth(ds, n) == b.spec_replay_depth(ds, n),
    decreases n,
{
    if n > 0 {
        lemma_depth_by_window(a, b, ds, n - 1);
    }
}

/// The inputs reach less than the whole timeline, and no input writes a
/// snapshot that they do not reach.
pub proof fn lemma_depth_bounds(v: TimelineView, ds: Seq<RemoteInput>, n: int)
    requires
        v.wf(),
    ensures
        0 <= v.spec_replay_depth(ds, n) < v.states.len(),
        forall|index: int, slot: int|
            index >= v.spec_replay_depth(ds, n) ==> #[trigger] spec_last_write(
                v,
                ds,
                n,
                Cell::History { index, slot },
            ) is None,
    decreases n,
{
    if n > 0 {
        lemma_depth_bounds(v, ds, n - 1);
        assert forall|index: int, slot: int|
            index >= v.spec_replay_depth(ds, n) implies #[trigger] spec_last_write(
            v,
            ds,
            n,
            Cell::History { index, slot },
        ) is None by {
            assert(spec_last_write(v, ds, n - 1, Cell::History { index, slot }) is None);
        }
    }
}

/// Storing one input writes one cell and leaves the others as they are.
pub proof fn lemma_store_one(v: TimelineView, d: RemoteInput)
    requires
        v.wf(),
    ensures
        v.spec_store(d).wf(),
        v.spec_store(d).map == v.map,
        spec_same_window(v.spec_store(d), v),
        forall|i: int|
            0 <= i < v.states.len() ==> spec_same_but_inputs(
                #[trigger] v.spec_store(d).states[i],
                v.states[i],
            ),
        forall|c: Cell|
            spec_cell_valid(v, c) ==> #[trigger] spec_cell(v.spec_store(d), c) == if spec_writes(
                v,
                d,
                c,
            ) {
                Some(d.input)
            } else {
                spec_cell(v, c)
            },
{
    let out = v.spec_store(d);
    assert(spec_contiguous(out.states)) by {
        assert forall|i: int| 0 <= i < out.states.len() implies (
        #[trigger] out.states[i]).frame_id + i == out.states[0].frame_id by {
            assert(v.states[i].frame_id + i == v.states[0].frame_id);
        }
    }
    assert forall|c: Cell| spec_cell_valid(v, c) implies #[trigger] spec_cell(out, c)
        == if spec_writes(v, d, c) {
        Some(d.input)
    } else {
        spec_cell(v, c)
    } by {
        match c {
            Cell::History { index, slot } => {},
            Cell::Pending { ahead, slot } => {},
        }
    }
}

/// Storing inputs gives what `spec_is_stored` describes, and keeps the ring
/// invariant.
pub proof fn lemma_store_all_is_stored(v: TimelineView, ds: Seq<RemoteInput>, n: int)
    requires
        v.wf(),
    ensures
        spec_is_stored(v.spec_store_all(ds, n), v, ds, n),
        v.spec_store_all(ds, n).wf(),
    decreases n,
{
    if n > 0 {
        let mid = v.spec_store_all(ds, n - 1);
        lemma_store_all_is_stored(v, ds, n - 1);
        lemma_store_one(mid, ds[n - 1]);
        let out = mid.spec_store(ds[n - 1]);
        assert forall|i: int| 0 <= i < v.states.len() implies spec_same_but_inputs(
            #[trigger] out.states[i],
            v.states[i],
        ) by {
            assert(spec_same_but_inputs(mid.states[i], v.states[i]));
            assert(spec_same_but_inputs(out.states[i], mid.states[i]));
        }
        assert forall|c: Cell| spec_cell_valid(v, c) implies #[trigger] spec_cell(out, c)
            == spec_cell_after(v, ds, n, c) by {
            assert(spec_cell_valid(mid, c));
            assert(spec_cell(mid, c) == spec_cell_after(v, ds, n - 1, c));
            assert(spec_writes(mid, ds[n - 1], c) == spec_writes(v, ds[n - 1], c));
        }
    }
}

/// Only one timeline is `v` with the inputs stored.
pub proof fn lemma_stored_unique(
    a: TimelineView,
    b: TimelineView,
    v: TimelineView,
    ds: Seq<RemoteInput>,
    n: int,
)
    requires
        v.wf(),
        spec_is_stored(a, v, ds, n),
        spec_is_stored(b, v, ds, n),
    ensures
        a == b,
{
    assert forall|i: int| 0 <= i < v.states.len() implies a.states[i] == b.states[i] by {
        assert(spec_same_but_inputs(a.states[i], v.states[i]));
        assert(spec_same_but_inputs(b.states[i], v.states[i]));
        assert forall|s: int| 0 <= s < MAX_PLAYERS implies a.states[i].player_inputs.inputs[s]
            == b.states[i].player_inputs.inputs[s] by {
            let c = Cell::History { index: i, slot: s };
            assert(spec_cell_valid(v, c));
            assert(spec_cell(a, c) == spec_cell_after(v, ds, n, c));
            assert(spec_cell(b, c) == spec_cell_after(v, ds, n, c));
        }
        a.states[i].player_inputs.lemma_ext_equal(b.states[i].player_inputs);
    }
    assert(a.states =~= b.states);
    assert forall|k: int| 0 <= k < v.pending.len() implies a.pending[k] == b.pending[k] by {
        assert forall|s: int| 0 <= s < MAX_PLAYERS implies a.pending[k].inner[s]
            == b.pending[k].inner[s] by {
            let c = Cell::Pending { ahead: k, slot: s };
            if k < PENDING_HORIZON {
                assert(spec_cell_valid(v, c));
                assert(spec_cell(a, c) == spec_cell_after(v, ds, n, c));
                assert(spec_cell(b, c) == spec_cell_after(v, ds, n, c));
            }
        }
        a.pending[k].lemma_ext_equal(b.pending[k]);
    }
    assert(a.pending =~= b.pending);
}

/// The cell of player slot `slot` in the inputs of snapshot `index`.
pub open spec fn spec_history_cell(index: int, slot: int) -> Cell {
    Cell::History { index, slot }
}

/// The cell of player slot `slot` in the inputs that wait for the frame
/// `ahead + 1` after the newest.
pub open spec fn spec_pending_cell(ahead: int, slot: int) -> Cell {
    Cell::Pending { ahead, slot }
}

/// Two snapshots of two timelines whose input cells agree hold the same inputs.
pub proof fn lemma_inputs_equal_by_cells(a: TimelineView, b: TimelineView, i: int)
    requires
        forall|s: int|
            0 <= s < MAX_PLAYERS ==> spec_cell(a, spec_history_cell(i, s)) == spec_cell(b, #[trigger] spec_history_cell(i, s)),
    ensures
        a.states[i].player_inputs == b.states[i].player_inputs,
{
    assert forall|s: int| 0 <= s < MAX_PLAYERS implies a.states[i].player_inputs.inputs[s]
        == b.states[i].player_inputs.inputs[s] by {
        let c = spec_history_cell(i, s);
        assert(spec_cell(a, c) == spec_cell(b, c));
    }
    a.states[i].player_inputs.lemma_ext_equal(b.states[i].player_inputs);
}

/// Two timelines whose waiting cells agree hold the same waiting inputs.
pub proof fn lemma_pending_equal_by_cells(a: TimelineView, b: TimelineView)
    requires
        a.pending.len() == PENDING_HORIZON,
        b.pending.len() == PENDING_HORIZON,
        forall|k: int, s: int|
            0 <= k < PENDING_HORIZON && 0 <= s < MAX_PLAYERS ==> spec_cell(a, spec_pending_cell(k, s)) == spec_cell(b, #[trigger] spec_pending_cell(k, s)),
    ensures
        a.pending == b.pending,
{
    assert forall|k: int| 0 <= k < PENDING_HORIZON implies a.pending[k] == b.pending[k] by {
        assert forall|s: int| 0 <= s < MAX_PLAYERS implies a.pending[k].inner[s]
            == b.pending[k].inner[s] by {
            let c = spec_pending_cell(k, s);
            assert(spec_cell(a, c) == spec_cell(b, c));
        }
        a.pending[k].lemma_ext_equal(b.pending[k]);
    }
    assert(a.pending =~= b.pending);
}

/// The ring invariant survives a tick.
pub proof fn lemma_tick_keeps_ring(v: TimelineView, inputs: PlayerInputs, dt_us: u32)
    requires
        v.wf(),
    ensures
        v.spec_tick(inputs, dt_us).wf(),
{
    let out = v.spec_tick(inputs, dt_us);
    if v.top().frame_id < u32::MAX {
        assert forall|i: int| 0 <= i < out.states.len() implies (
        #[trigger] out.states[i]).frame_id + i == out.states[0].frame_id by {
            if i > 0 {
                assert(out.states[i] == v.states[i - 1]);
                assert(v.states[i - 1].frame_id + (i - 1) == v.states[0].frame_id);
            }
        }
    }
}

/// The ring invariant survives the propagation of inputs, and so do the
/// number of snapshots and the frame of the newest.
pub proof fn lemma_propagate_keeps_ring(v: TimelineView, ds: Seq<RemoteInput>)
    requires
        v.wf(),
    ensures
        v.spec_propagate_inputs(ds).wf(),
        spec_same_window(v.spec_propagate_inputs(ds), v),
        v.spec_propagate_inputs(ds).map == v.map,
{
    let n = ds.len() as int;
    let stored = v.spec_store_all(ds, n);
    let k = v.spec_replay_depth(ds, n);
    lemma_store_all_is_stored(v, ds, n);
    lemma_depth_bounds(v, ds, n);
    lemma_replay_keeps_ring(stored.states, v.map, k);
    lemma_replay_is_replay(stored.states, v.map, k);
    lemma_replay_keeps_clock(spec_replay(stored.states, v.map, k), stored.states, v.map, k, 0);
}

/// The ring invariant survives a rebase, and so do the number of snapshots
/// and the frame of the newest: a rebase rewrites, it does not advance.
pub proof fn lemma_rebase_keeps_ring(v: TimelineView, lkg: GameState)
    requires
        v.wf(),
    ensures
        v.spec_rebase(lkg).wf(),
        spec_same_window(v.spec_rebase(lkg), v),
{
    match v.spec_index_of(lkg.frame_id) {
        Some(i) => {
            if v.states[i] != lkg {
                let st = v.states.update(i, lkg);
                assert(v.states[i].frame_id + i == v.states[0].frame_id);
                assert(spec_contiguous(st)) by {
                    assert forall|j: int| 0 <= j < st.len() implies (#[trigger] st[j]).frame_id
                        + j == st[0].frame_id by {
                        assert(v.states[j].frame_id + j == v.states[0].frame_id);
                    }
                }
                lemma_replay_keeps_ring(st, v.map, i);
                lemma_replay_is_replay(st, v.map, i);
                lemma_replay_keeps_clock(spec_replay(st, v.map, i), st, v.map, i, 0);
            }
        },
        None => {},
    }
}

/// A rebase on the snapshot that the timeline already has for that frame
/// changes nothing.
pub proof fn lemma_rebase_fixed_point(v: TimelineView, lkg: GameState)
    requires
        v.spec_try_get_state(lkg.frame_id) == Some(lkg),
    ensures
        v.spec_rebase(lkg) == v,
{
}

/// Propagating the same inputs twice gives what propagating them once gives.
pub proof fn lemma_propagate_inputs_idempotent(v: TimelineView, ds: Seq<RemoteInput>)
    requires
        v.wf(),
    ensures
        v.spec_propagate_inputs(ds).spec_propagate_inputs(ds) == v.spec_propagate_inputs(ds),
{
    let n = ds.len() as int;
    let stored = v.spec_store_all(ds, n);
    let k = v.spec_replay_depth(ds, n);
    let w = v.spec_propagate_inputs(ds);
    lemma_store_all_is_stored(v, ds, n);
    lemma_depth_bounds(v, ds, n);
    lemma_propagate_keeps_ring(v, ds);
    lemma_replay_is_replay(stored.states, v.map, k);
    lemma_depth_by_window(w, v, ds, n);
    // storing the inputs again changes no cell
    lemma_store_all_is_stored(w, ds, n);
    assert(spec_is_stored(w, w, ds, n)) by {
        assert forall|c: Cell| spec_cell_valid(w, c) implies #[trigger] spec_cell(w, c)
            == spec_cell_after(w, ds, n, c) by {
            lemma_last_write_by_window(w, v, ds, n, c);
            assert(spec_cell_valid(v, c));
            assert(spec_cell(stored, c) == spec_cell_after(v, ds, n, c));
            match c {
                Cell::History { index, slot } => {
                    lemma_replay_keeps_clock(w.states, stored.states, v.map, k, index);
                },
                Cell::Pending { ahead, slot } => {},
            }
        }
    }
    lemma_stored_unique(w.spec_store_all(ds, n), w, w, ds, n);
    // and computing the snapshots again gives the same snapshots
    lemma_replay_idempotent(stored.states, v.map, k);
}

/// Whether no input of `a` is for the frame and the player of an input of `b`.
pub open spec fn spec_disjoint(a: Seq<RemoteInput>, b: Seq<RemoteInput>) -> bool {
    forall|i: int, j: int|
        0 <= i < a.len() && 0 <= j < b.len() ==> !((#[trigger] a[i]).frame_id == (
        #[trigger] b[j]).frame_id && a[i].player_id == b[j].player_id)
}

/// A cell that was written was written by one of the inputs.
pub proof fn lemma_write_has_source(v: TimelineView, ds: Seq<RemoteInput>, n: int, c: Cell)
    requires
        n <= ds.len(),
        spec_last_write(v, ds, n, c) is Some,
    ensures
        exists|i: int| 0 <= i < n && spec_writes(v, #[trigger] ds[i], c),
    decreases n,
{
    if n > 0 {
        if spec_writes(v, ds[n - 1], c) {
        } else {
            lemma_write_has_source(v, ds, n - 1, c);
        }
    }
}

/// Inputs for different frames or players write different cells.
pub proof fn lemma_disjoint_writes(
    v: TimelineView,
    a: Seq<RemoteInput>,
    b: Seq<RemoteInput>,
    c: Cell,
)
    requires
        spec_disjoint(a, b),
    ensures
        spec_last_write(v, a, a.len() as int, c) is None || spec_last_write(
            v,
            b,
            b.len() as int,
            c,
        ) is None,
{
    if spec_last_write(v, a, a.len() as int, c) is Some && spec_last_write(
        v,
        b,
        b.len() as int,
        c,
    ) is Some {
        lemma_write_has_source(v, a, a.len() as int, c);
        lemma_write_has_source(v, b, b.len() as int, c);
        let i = choose|i: int| 0 <= i < a.len() && spec_writes(v, #[trigger] a[i], c);
        let j = choose|j: int| 0 <= j < b.len() && spec_writes(v, #[trigger] b[j], c);
        assert(a[i].frame_id == b[j].frame_id && a[i].player_id == b[j].player_id);
    }
}

/// Storing two lists of inputs for different frames or players gives the
/// same timeline in either order.
pub proof fn lemma_store_order(v: TimelineView, a: Seq<RemoteInput>, b: Seq<RemoteInput>)
    requires
        v.wf(),
        spec_disjoint(a, b),
    ensures
        v.spec_store_all(a, a.len() as int).spec_store_all(b, b.len() as int) == v.spec_store_all(
            b,
            b.len() as int,
        ).spec_store_all(a, a.len() as int),
{
    let na = a.len() as int;
    let nb = b.len() as int;
    let sa = v.spec_store_all(a, na);
    let sb = v.spec_store_all(b, nb);
    let ab = sa.spec_store_all(b, nb);
    let ba = sb.spec_store_all(a, na);
    lemma_store_all_is_stored(v, a, na);
    lemma_store_all_is_stored(v, b, nb);
    lemma_store_all_is_stored(sa, b, nb);
    lemma_store_all_is_stored(sb, a, na);
    assert forall|c: Cell| spec_cell_valid(v, c) implies spec_cell(ab, c) == spec_cell(ba, c) by {
        lemma_disjoint_writes(v, a, b, c);
        lemma_last_write_by_window(sa, v, b, nb, c);
        lemma_last_write_by_window(sb, v, a, na, c);
        assert(spec_cell_valid(sa, c) && spec_cell_valid(sb, c));
        assert(spec_cell(ab, c) == spec_cell_after(sa, b, nb, c));
        assert(spec_cell(ba, c) == spec_cell_after(sb, a, na, c));
        assert(spec_cell(sa, c) == spec_cell_after(v, a, na, c));
        assert(spec_cell(sb, c) == spec_cell_after(v, b, nb, c));
    }
    assert forall|i: int| 0 <= i < v.states.len() implies ab.states[i] == ba.states[i] by {
        assert(spec_same_but_inputs(ab.states[i], sa.states[i]));
        assert(spec_same_but_inputs(sa.states[i], v.states[i]));
        assert(spec_same_but_inputs(ba.states[i], sb.states[i]));
        assert(spec_same_but_inputs(sb.states[i], v.states[i]));
        assert forall|s: int| 0 <= s < MAX_PLAYERS implies spec_cell(ab, spec_history_cell(i, s)) == spec_cell(ba, #[trigger] spec_history_cell(i, s)) by {
            assert(spec_cell_valid(v, Cell::History { index: i, slot: s }));
        }
        lemma_inputs_equal_by_cells(ab, ba, i);
    }
    assert(ab.states =~= ba.states);
    assert forall|k: int, s: int|
        0 <= k < PENDING_HORIZON && 0 <= s < MAX_PLAYERS implies spec_cell(ab, spec_pending_cell(k, s)) == spec_cell(ba, #[trigger] spec_pending_cell(k, s)) by {
        assert(spec_cell_valid(v, Cell::Pending { ahead: k, slot: s }));
    }
    lemma_pending_equal_by_cells(ab, ba);
}

/// The larger of two numbers.
pub open spec fn spec_max(a: int, b: int) -> int {
    if a >= b {
        a
    } else {
        b
    }
}

/// Propagating two lists of inputs one after the other gives what storing
/// both and then computing the snapshots again once, from the oldest frame
/// that either changes, gives.
#[verifier::rlimit(40)]
pub proof fn lemma_propagate_twice(v: TimelineView, a: Seq<RemoteInput>, b: Seq<RemoteInput>)
    requires
        v.wf(),
    ensures
        v.spec_propagate_inputs(a).spec_propagate_inputs(b) == (TimelineView {
            states: spec_replay(
                v.spec_store_all(a, a.len() as int).spec_store_all(b, b.len() as int).states,
                v.map,
                spec_max(
                    v.spec_replay_depth(a, a.len() as int),
                    v.spec_replay_depth(b, b.len() as int),
                ),
            ),
            ..v.spec_store_all(a, a.len() as int).spec_store_all(b, b.len() as int)
        }),
{
    let na = a.len() as int;
    let nb = b.len() as int;
    let map = v.map;
    let sa = v.spec_store_all(a, na);
    let ka = v.spec_replay_depth(a, na);
    let w = v.spec_propagate_inputs(a);
    let wb = w.spec_store_all(b, nb);
    let kb = v.spec_replay_depth(b, nb);
    let t = sa.spec_store_all(b, nb);
    let kk = spec_max(ka, kb);
    let len = v.states.len() as int;

    lemma_store_all_is_stored(v, a, na);
    lemma_depth_bounds(v, a, na);
    lemma_depth_bounds(v, b, nb);
    lemma_propagate_keeps_ring(v, a);
    lemma_replay_is_replay(sa.states, map, ka);
    lemma_depth_by_window(w, v, b, nb);
    lemma_store_all_is_stored(w, b, nb);
    lemma_store_all_is_stored(sa, b, nb);

    let out = spec_replay(wb.states, map, kb);
    lemma_replay_is_replay(wb.states, map, kb);

    // the snapshots of `wb` hold the inputs of `t`, and the rest of `w`
    assert forall|i: int| 0 <= i < len implies wb.states[i].player_inputs
        == t.states[i].player_inputs && (i >= kb ==> wb.states[i] == w.states[i] && t.states[i]
        == sa.states[i]) && w.states[i].time_us == sa.states[i].time_us
        && w.states[i].player_inputs == sa.states[i].player_inputs by {
        lemma_replay_keeps_clock(w.states, sa.states, map, ka, i);
        assert(spec_same_but_inputs(wb.states[i], w.states[i]));
        assert(spec_same_but_inputs(t.states[i], sa.states[i]));
        assert forall|s: int| 0 <= s < MAX_PLAYERS implies spec_cell(wb, spec_history_cell(i, s)) == spec_cell(t, #[trigger] spec_history_cell(i, s)) by {
            let c = Cell::History { index: i, slot: s };
            assert(spec_cell_valid(w, c) && spec_cell_valid(sa, c));
            lemma_last_write_by_window(w, sa, b, nb, c);
            assert(spec_cell(wb, c) == spec_cell_after(w, b, nb, c));
            assert(spec_cell(t, c) == spec_cell_after(sa, b, nb, c));
        }
        lemma_inputs_equal_by_cells(wb, t, i);
        if i >= kb {
            assert forall|s: int| 0 <= s < MAX_PLAYERS implies spec_cell(t, spec_history_cell(i, s)) == spec_cell(sa, #[trigger] spec_history_cell(i, s)) by {
                let c = Cell::History { index: i, slot: s };
                assert(spec_cell_valid(sa, c));
                lemma_last_write_by_window(sa, v, b, nb, c);
                assert(spec_last_write(v, b, nb, c) is None);
                assert(spec_cell(t, c) == spec_cell_after(sa, b, nb, c));
            }
            lemma_inputs_equal_by_cells(t, sa, i);
        }
    }
    assert forall|k: int, s: int|
        0 <= k < PENDING_HORIZON && 0 <= s < MAX_PLAYERS implies spec_cell(wb, spec_pending_cell(k, s)) == spec_cell(t, #[trigger] spec_pending_cell(k, s)) by {
        let c = Cell::Pending { ahead: k, slot: s };
        assert(spec_cell_valid(w, c) && spec_cell_valid(sa, c));
        lemma_last_write_by_window(w, sa, b, nb, c);
        assert(spec_cell(wb, c) == spec_cell_after(w, b, nb, c));
        assert(spec_cell(t, c) == spec_cell_after(sa, b, nb, c));
    }
    lemma_pending_equal_by_cells(wb, t);

    assert(spec_is_replay_of(out, t.states, map, kk)) by {
        assert forall|j: int| kk <= j < len && 0 <= j implies #[trigger] out[j]
            == t.states[j] by {
            assert(out[j] == wb.states[j]);
            assert(w.states[j] == sa.states[j]);
        }
        assert forall|j: int| 0 <= j < kk && j + 1 < len implies #[trigger] out[j] == out[j + 1].spec_resimulate(t.states[j], map) by {
            assert(spec_same_but_inputs(wb.states[j], w.states[j]));
            assert(spec_same_but_inputs(t.states[j], sa.states[j]));
            if j < kb {
            } else {
                assert(out[j] == wb.states[j]);
                assert(out[j + 1] == wb.states[j + 1]);
                assert(w.states[j] == w.states[j + 1].spec_resimulate(sa.states[j], map));
            }
        }
    }
    lemma_replay_is_replay(t.states, map, kk);
    lemma_replay_unique(out, spec_replay(t.states, map, kk), t.states, map, kk);
}

/// Two lists of inputs for different frames or players may be propagated in
/// either order: the timeline that results is the same, its newest snapshot
/// included.
pub proof fn lemma_propagate_inputs_commute(
    v: TimelineView,
    a: Seq<RemoteInput>,
    b: Seq<RemoteInput>,
)
    requires
        v.wf(),
        spec_disjoint(a, b),
    ensures
        v.spec_propagate_inputs(a).spec_propagate_inputs(b) == v.spec_propagate_inputs(
            b,
        ).spec_propagate_inputs(a),
        v.spec_propagate_inputs(a).spec_propagate_inputs(b).top() == v.spec_propagate_inputs(
            b,
        ).spec_propagate_inputs(a).top(),
{
    lemma_propagate_twice(v, a, b);
    lemma_propagate_twice(v, b, a);
    lemma_store_order(v, a, b);
}

/// Whether every snapshot but the oldest is what the simulation makes of
/// the snapshot before it, with the inputs, the clock and the edits that
/// the timeline holds for its frame.
pub open spec fn spec_consistent(st: Seq<GameState>, map: GameMap) -> bool {
    forall|j: int|
        0 <= j && j + 1 < st.len() ==> #[trigger] st[j] == st[j + 1].spec_resimulate(st[j], map)
}

/// After the edits of the first `n` slots, each of them holds what its edit
/// makes of it, and the others hold what they held.
pub proof fn lemma_edited_slots(
    players: PlayerIdMap<PlayerState>,
    edits: PlayerIdMap<SlotEdit>,
    n: int,
    i: int,
)
    requires
        0 <= n <= MAX_PLAYERS,
        0 <= i < MAX_PLAYERS,
    ensures
        spec_edited_upto(players, edits, n).inner[i] == if i < n {
            spec_edited(players.inner[i], edits.inner[i])
        } else {
            players.inner[i]
        },
    decreases n,
{
    if n > 0 {
        lemma_edited_slots(players, edits, n - 1, i);
    }
}

/// A snapshot that the simulation has just made has no edits, and making
/// none changes nothing.
pub proof fn lemma_no_edits(s: GameState)
    ensures
        s.spec_with_edits(spec_no_edits()) == (GameState { edits: spec_no_edits(), ..s }),
{
    let edited = spec_edited_upto(s.player_states, spec_no_edits(), MAX_PLAYERS as int);
    assert forall|i: int| 0 <= i < MAX_PLAYERS implies edited.inner[i]
        == s.player_states.inner[i] by {
        lemma_edited_slots(s.player_states, spec_no_edits(), MAX_PLAYERS as int, i);
    }
    edited.lemma_ext_equal(s.player_states);
}

/// A tick keeps a timeline consistent.
pub proof fn lemma_tick_keeps_consistent(v: TimelineView, inputs: PlayerInputs, dt_us: u32)
    requires
        v.wf(),
        spec_consistent(v.states, v.map),
    ensures
        spec_consistent(v.spec_tick(inputs, dt_us).states, v.map),
{
    let out = v.spec_tick(inputs, dt_us);
    if v.top().frame_id < u32::MAX {
        assert forall|j: int| 0 <= j && j + 1 < out.states.len() implies #[trigger] out.states[j]
            == out.states[j + 1].spec_resimulate(out.states[j], v.map) by {
            if j == 0 {
                assert(out.states[1] == v.states[0]);
                lemma_no_edits(
                    v.top().spec_simulate(
                        out.states[0].player_inputs,
                        out.states[0].time_us.wrapping_sub(v.top().time_us),
                        v.map,
                    ),
                );
            } else {
                assert(out.states[j] == v.states[j - 1]);
                assert(out.states[j + 1] == v.states[j]);
            }
        }
    }
}

/// Whether the snapshot `after` is the snapshot `before` with one more
/// edit of its players, which the snapshot records.
pub open spec fn spec_is_edit(before: GameState, after: GameState) -> bool {
    &&& after == (GameState { player_states: after.player_states, edits: after.edits, ..before })
    &&& forall|i: int, slot: Option<PlayerState>|
        0 <= i < MAX_PLAYERS ==> #[trigger] spec_edit_follows(before, after, i, slot)
}

/// Whether, if the edits of `before` make of `slot` what `before` holds in
/// slot `i`, the edits of `after` make of it what `after` holds there.
pub open spec fn spec_edit_follows(
    before: GameState,
    after: GameState,
    i: int,
    slot: Option<PlayerState>,
) -> bool {
    spec_edited(slot, before.edits.inner[i]) == before.player_states.inner[i] ==> spec_edited(
        slot,
        after.edits.inner[i],
    ) == after.player_states.inner[i]
}

/// To put a player in, to take one out and to record its readiness are
/// edits that the snapshot records.
pub proof fn lemma_edits_are_recorded(s: GameState, id: PlayerId, pos: Pos, ready: bool)
    ensures
        spec_is_edit(s, s.spec_add_player(id, pos)),
        spec_is_edit(s, s.spec_remove_player(id)),
        spec_is_edit(s, s.spec_set_player_ready(id, ready)),
{
}

/// An edit of the newest snapshot keeps a timeline consistent: when the
/// snapshot is computed again, the edit is made again.
pub proof fn lemma_edit_keeps_consistent(v: TimelineView, top: GameState)
    requires
        v.wf(),
        spec_consistent(v.states, v.map),
        spec_is_edit(v.top(), top),
    ensures
        spec_consistent(v.spec_with_top(top).states, v.map),
        v.spec_with_top(top).wf(),
{
    let out = v.spec_with_top(top).states;
    assert forall|i: int| 0 <= i < out.len() implies (#[trigger] out[i]).frame_id + i
        == out[0].frame_id by {
        assert(v.states[i].frame_id + i == v.states[0].frame_id);
    }
    assert forall|j: int| 0 <= j && j + 1 < out.len() implies #[trigger] out[j] == out[j
        + 1].spec_resimulate(out[j], v.map) by {
        if j == 0 {
            let before = v.states[1];
            let simulated = before.spec_simulate(
                v.top().player_inputs,
                v.top().time_us.wrapping_sub(before.time_us),
                v.map,
            );
            assert(v.states[0] == before.spec_resimulate(v.states[0], v.map));
            let again = simulated.spec_with_edits(top.edits);
            assert forall|i: int| 0 <= i < MAX_PLAYERS implies again.player_states.inner[i]
                == top.player_states.inner[i] by {
                lemma_edited_slots(
                    simulated.player_states,
                    v.top().edits,
                    MAX_PLAYERS as int,
                    i,
                );
                lemma_edited_slots(simulated.player_states, top.edits, MAX_PLAYERS as int, i);
                assert(spec_edited(simulated.player_states.inner[i], v.top().edits.inner[i])
                    == v.top().player_states.inner[i]);
                assert(spec_edit_follows(v.top(), top, i, simulated.player_states.inner[i]));
            }
            again.player_states.lemma_ext_equal(top.player_states);
        } else {
            assert(out[j] == v.states[j]);
            assert(out[j + 1] == v.states[j + 1]);
        }
    }
}

/// The propagation of inputs keeps a timeline consistent.
pub proof fn lemma_propagate_keeps_consistent(v: TimelineView, ds: Seq<RemoteInput>)
    requires
        v.wf(),
        spec_consistent(v.states, v.map),
    ensures
        spec_consistent(v.spec_propagate_inputs(ds).states, v.map),
{
    let n = ds.len() as int;
    let stored = v.spec_store_all(ds, n);
    let k = v.spec_replay_depth(ds, n);
    let out = v.spec_propagate_inputs(ds).states;
    lemma_store_all_is_stored(v, ds, n);
    lemma_depth_bounds(v, ds, n);
    lemma_replay_is_replay(stored.states, v.map, k);
    assert forall|j: int| 0 <= j && j + 1 < out.len() implies #[trigger] out[j] == out[j
        + 1].spec_resimulate(out[j], v.map) by {
        lemma_replay_keeps_clock(out, stored.states, v.map, k, j);
        if j >= k {
            assert(out[j] == stored.states[j]);
            assert(out[j + 1] == stored.states[j + 1]);
            assert(spec_same_but_inputs(stored.states[j], v.states[j]));
            assert(spec_same_but_inputs(stored.states[j + 1], v.states[j + 1]));
            assert forall|s: int| 0 <= s < MAX_PLAYERS implies spec_cell(
                stored,
                spec_history_cell(j, s),
            ) == spec_cell(v, #[trigger] spec_history_cell(j, s)) by {
                let c = spec_history_cell(j, s);
                assert(spec_cell_valid(v, c));
                assert(spec_last_write(v, ds, n, c) is None);
                assert(spec_cell(stored, c) == spec_cell_after(v, ds, n, c));
            }
            lemma_inputs_equal_by_cells(stored, v, j);
            assert forall|s: int| 0 <= s < MAX_PLAYERS implies spec_cell(
                stored,
                spec_history_cell(j + 1, s),
            ) == spec_cell(v, #[trigger] spec_history_cell(j + 1, s)) by {
                let c = spec_history_cell(j + 1, s);
                assert(spec_cell_valid(v, c));
                assert(spec_last_write(v, ds, n, c) is None);
                assert(spec_cell(stored, c) == spec_cell_after(v, ds, n, c));
            }
            lemma_inputs_equal_by_cells(stored, v, j + 1);
            assert(v.states[j] == v.states[j + 1].spec_resimulate(v.states[j], v.map));
        }
    }
}

/// In a consistent timeline every snapshot is already what computing it
/// again gives: a replay changes nothing.
pub proof fn lemma_replay_of_consistent(st: Seq<GameState>, map: GameMap, k: int)
    requires
        0 <= k < st.len(),
        spec_consistent(st, map),
    ensures
        spec_replay(st, map, k) == st,
{
    lemma_replay_is_replay(st, map, k);
    assert(spec_is_replay_of(st, st, map, k));
    lemma_replay_unique(spec_replay(st, map, k), st, st, map, k);
}

/// Where neither the clock nor the frames run out on the way, bringing a
/// timeline up to a time reaches that time, and passes it by less than a
/// tick: the newest snapshot is the first at or after the time.
pub proof fn lemma_tick_until_reaches(
    v: TimelineView,
    inputs: PlayerInputs,
    target_us: u32,
    fuel: nat,
)
    requires
        v.wf(),
        fuel >= v.spec_ticks_to(target_us),
        v.top().frame_id + v.spec_ticks_to(target_us) <= u32::MAX,
        v.top().time_us + v.spec_ticks_to(target_us) * TICK_INTERVAL_US <= u32::MAX,
    ensures
        v.spec_tick_until(inputs, target_us, fuel).wf(),
        v.spec_tick_until(inputs, target_us, fuel).top().time_us >= target_us,
        v.top().time_us < target_us ==> v.spec_tick_until(inputs, target_us, fuel).top().time_us
            < target_us + TICK_INTERVAL_US,
        v.spec_tick_until(inputs, target_us, fuel).top().frame_id == v.top().frame_id
            + v.spec_ticks_to(target_us),
    decreases fuel,
{
    let t = v.top().time_us as int;
    let tick = TICK_INTERVAL_US as int;
    if t >= target_us {
    } else {
        let n = v.spec_ticks_to(target_us) as int;
        assert(n == (target_us - t - 1) / tick + 1);
        assert(n >= 1);
        assert(t + n * tick >= t + tick) by (nonlinear_arith)
            requires
                n >= 1,
                tick > 0,
        ;
        let next = v.spec_tick(inputs, TICK_INTERVAL_US);
        lemma_tick_keeps_ring(v, inputs, TICK_INTERVAL_US);
        assert(next.top().time_us == t + tick);
        assert(next.top().frame_id == v.top().frame_id + 1);
        let gap = target_us - t - 1;
        vstd::arithmetic::div_mod::lemma_fundamental_div_mod(gap, tick);
        if gap < tick {
            vstd::arithmetic::div_mod::lemma_basic_div(gap, tick);
            assert(n == 1);
            assert(next.spec_ticks_to(target_us) == 0);
        } else {
            vstd::arithmetic::div_mod::lemma_fundamental_div_mod(gap - tick, tick);
            assert((gap - tick) / tick == gap / tick - 1) by {
                vstd::arithmetic::div_mod::lemma_div_plus_one(gap - tick, tick);
            }
            assert(next.spec_ticks_to(target_us) == n - 1);
        }
        assert(next.top().time_us + next.spec_ticks_to(target_us) * tick <= u32::MAX)
            by (nonlinear_arith)
            requires
                next.top().time_us == t + tick,
                next.spec_ticks_to(target_us) == n - 1,
                t + n * tick <= u32::MAX,
        ;
        lemma_tick_until_reaches(
            next,
            PlayerInputs::spec_new(),
            target_us,
            (fuel - 1) as nat,
        );
        if next.top().time_us >= target_us {
            assert(gap < tick) by {
                if gap >= tick {
                    assert(next.spec_ticks_to(target_us) == n - 1);
                    assert(n - 1 >= 1) by (nonlinear_arith)
                        requires
                            gap >= tick,
                            tick > 0,
                            n == gap / tick + 1,
                            gap == tick * (gap / tick) + gap % tick,
                            0 <= gap % tick < tick,
                    ;
                }
            }
        }
    }
}

/// One operation on a timeline.
pub enum TimelineOp {
    Tick { inputs: PlayerInputs, dt_us: u32 },
    PropagateInputs { delta_inputs: Seq<RemoteInput> },
    Rebase { lkg_state: GameState },
}

/// The timeline after one operation.
pub open spec fn spec_apply_op(v: TimelineView, op: TimelineOp) -> TimelineView {
    match op {
        TimelineOp::Tick { inputs, dt_us } => v.spec_tick(inputs, dt_us),
        TimelineOp::PropagateInputs { delta_inputs } => v.spec_propagate_inputs(delta_inputs),
        TimelineOp::Rebase { lkg_state } => v.spec_rebase(lkg_state),
    }
}

/// The timeline after the first `n` of the operations `ops`, in their order.
pub open spec fn spec_run(v: TimelineView, ops: Seq<TimelineOp>, n: int) -> TimelineView
    decreases n,
{
    if n <= 0 {
        v
    } else {
        spec_apply_op(spec_run(v, ops, n - 1), ops[n - 1])
    }
}

/// The ring invariant holds after any sequence of ticks, propagations and
/// rebases: the snapshot at place `i` is `i` frames older than the newest.
pub proof fn lemma_ring_invariant_always(v: TimelineView, ops: Seq<TimelineOp>, n: int)
    requires
        v.wf(),
    ensures
        spec_run(v, ops, n).wf(),
        forall|i: int|
            0 <= i < spec_run(v, ops, n).states.len() ==> (#[trigger] spec_run(
                v,
                ops,
                n,
            ).states[i]).frame_id == spec_run(v, ops, n).states[0].frame_id - i,
    decreases n,
{
    if n > 0 {
        lemma_ring_invariant_always(v, ops, n - 1);
        let before = spec_run(v, ops, n - 1);
        match ops[n - 1] {
            TimelineOp::Tick { inputs, dt_us } => {
                lemma_tick_keeps_ring(before, inputs, dt_us);
            },
            TimelineOp::PropagateInputs { delta_inputs } => {
                lemma_propagate_keeps_ring(before, delta_inputs);
            },
            TimelineOp::Rebase { lkg_state } => {
                lemma_rebase_keeps_ring(before, lkg_state);
            },
        }
    }
    let out = spec_run(v, ops, n);
    assert forall|i: int| 0 <= i < out.states.len() implies (#[trigger] out.states[i]).frame_id
        == out.states[0].frame_id - i by {
        assert(out.states[i].frame_id + i == out.states[0].frame_id);
    }
}

/// A timeline is decided by its seed, its configuration and what was done
/// to it: two timelines of the same game that went through the same
/// operations are the same, their newest snapshots included.
pub proof fn lemma_timeline_is_deterministic(
    a: TimelineView,
    b: TimelineView,
    map: GameMap,
    config: GameConfig,
    ops: Seq<TimelineOp>,
)
    requires
        a == spec_run(spec_single(map, GameState::spec_new(config)), ops, ops.len() as int),
        b == spec_run(spec_single(map, GameState::spec_new(config)), ops, ops.len() as int),
    ensures
        a == b,
        a.top() == b.top(),
{
}

/// A snapshot, the inputs, the length of the tick and the map decide the
/// next snapshot; nothing else does.
pub proof fn lemma_simulate_is_deterministic(
    a: GameState,
    b: GameState,
    inputs_a: PlayerInputs,
    inputs_b: PlayerInputs,
    dt_a: u32,
    dt_b: u32,
    map_a: GameMap,
    map_b: GameMap,
)
    requires
        a == b,
        inputs_a == inputs_b,
        dt_a == dt_b,
        map_a == map_b,
    ensures
        a.spec_simulate(inputs_a, dt_a, map_a) == b.spec_simulate(inputs_b, dt_b, map_b),
{
}

} // verus!
