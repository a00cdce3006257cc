//! Why the protocol heals: a client that rebases on the snapshot that the
//! server vouches for, and then propagates the inputs that the server has
//! seen since, holds the snapshots of the server.

use vstd::prelude::*;
use crate::game::GameState;
use crate::game::Input;
use crate::player_id_map::MAX_PLAYERS;
use crate::timeline::spec_inputs_of;
use crate::timeline::spec_replay;
use crate::timeline::RemoteInput;
use crate::timeline::TimelineView;
use crate::timeline_laws::lemma_depth_bounds;
use crate::timeline_laws::lemma_inputs_equal_by_cells;
use crate::timeline_laws::lemma_rebase_keeps_ring;
use crate::timeline_laws::lemma_replay_is_replay;
use crate::timeline_laws::lemma_replay_keeps_clock;
use crate::timeline_laws::lemma_store_all_is_stored;
use crate::timeline_laws::spec_cell;
use crate::timeline_laws::spec_cell_after;
use crate::timeline_laws::spec_cell_valid;
use crate::timeline_laws::spec_history_cell;
use crate::timeline_laws::spec_last_write;
use crate::timeline_laws::spec_same_but_inputs;
use crate::timeline_laws::spec_writes;
use crate::timeline_laws::Cell;

verus! {

/// What the last of two lists of inputs to write a cell puts there: what the
/// second list puts there, and what the first does where the second does
/// not write the cell.
pub proof fn lemma_last_write_concat(
    v: TimelineView,
    a: Seq<RemoteInput>,
    b: Seq<RemoteInput>,
    n: int,
    c: Cell,
)
    requires
        0 <= n <= b.len(),
    ensures
        spec_last_write(v, a + b, a.len() + n, c) == match spec_last_write(v, b, n, c) {
            Some(x) => Some(x),
            None => spec_last_write(v, a, a.len() as int, c),
        },
    decreases n,
{
    if n > 0 {
        assert((a + b)[a.len() + n - 1] == b[n - 1]);
        lemma_last_write_concat(v, a, b, n - 1, c);
    } else {
        lemma_last_write_prefix(v, a, a + b, a.len() as int, c);
    }
}

/// What is written last depends on the inputs that are looked at alone.
pub proof fn lemma_last_write_prefix(
    v: TimelineView,
    a: Seq<RemoteInput>,
    b: Seq<RemoteInput>,
    n: int,
    c: Cell,
)
    requires
        n <= a.len(),
        n <= b.len(),
        forall|k: int| 0 <= k < n ==> a[k] == b[k],
    ensures
        spec_last_write(v, a, n, c) == spec_last_write(v, b, n, c),
    decreases n,
{
    if n > 0 {
        lemma_last_write_prefix(v, a, b, n - 1, c);
    }
}

/// What the inputs of the first `n` player slots of the snapshot `s` put
/// into a cell of the timeline `v`: the input of the slot of the cell,
/// into the cell of the frame of `s`; nothing where that slot asks for
/// nothing.
pub open spec fn spec_written_by(v: TimelineView, s: GameState, n: int, c: Cell) -> Option<Input> {
    match c {
        Cell::History { index, slot } => if index == v.top().frame_id - s.frame_id && 0 <= slot
            < n && s.player_inputs.inputs[slot] != Input::NoInput {
            Some(s.player_inputs.inputs[slot])
        } else {
            None
        },
        Cell::Pending { ahead, slot } => None,
    }
}

/// The inputs of a snapshot, stored in a timeline that can compute the
/// frame of the snapshot again, go to the cells of that frame.
pub proof fn lemma_last_write_of_snapshot(v: TimelineView, s: GameState, n: int, c: Cell)
    requires
        0 <= n <= MAX_PLAYERS,
        s.frame_id <= v.top().frame_id,
        v.top().frame_id - s.frame_id < v.states.len() - 1,
    ensures
        spec_last_write(
            v,
            spec_inputs_of(s, n),
            spec_inputs_of(s, n).len() as int,
            c,
        ) == spec_written_by(v, s, n, c),
    decreases n,
{
    if n > 0 {
        lemma_last_write_of_snapshot(v, s, n - 1, c);
        if s.player_inputs.inputs[n - 1] != Input::NoInput {
            let before = spec_inputs_of(s, n - 1);
            let all = spec_inputs_of(s, n);
            assert(all == before.push(all[all.len() - 1]));
            lemma_last_write_prefix(v, before, all, before.len() as int, c);
        }
    }
}

/// What the inputs that the timeline `s` holds for frames after `frame_id`
/// put into a cell of a timeline `v` with the same newest frame.
pub open spec fn spec_written_since(
    v: TimelineView,
    s: TimelineView,
    frame_id: u32,
    k: int,
    c: Cell,
) -> Option<Input> {
    match c {
        Cell::History { index, slot } => if s.states.len() - k <= index < s.states.len()
            && s.states[index].frame_id > frame_id {
            spec_written_by(v, s.states[index], MAX_PLAYERS as int, c)
        } else {
            None
        },
        Cell::Pending { ahead, slot } => None,
    }
}

/// The inputs that a timeline holds for the frames after `frame_id`,
/// stored in another timeline with the same newest frame, go to the cells
/// of their frames.
pub proof fn lemma_last_write_since(
    v: TimelineView,
    s: TimelineView,
    frame_id: u32,
    k: int,
    c: Cell,
)
    requires
        s.wf(),
        v.top().frame_id == s.top().frame_id,
        0 <= k <= s.states.len(),
        frame_id <= s.top().frame_id,
        s.top().frame_id - frame_id < v.states.len(),
    ensures
        spec_last_write(
            v,
            s.spec_inputs_since(frame_id, k),
            s.spec_inputs_since(frame_id, k).len() as int,
            c,
        ) == spec_written_since(v, s, frame_id, k, c),
    decreases k,
{
    if k > 0 {
        lemma_last_write_since(v, s, frame_id, k - 1, c);
        let index = s.states.len() - k;
        let state = s.states[index];
        assert(state.frame_id + index == s.states[0].frame_id);
        let before = s.spec_inputs_since(frame_id, k - 1);
        if state.frame_id > frame_id {
            let more = spec_inputs_of(state, MAX_PLAYERS as int);
            lemma_last_write_of_snapshot(v, state, MAX_PLAYERS as int, c);
            lemma_last_write_concat(v, before, more, more.len() as int, c);
            assert(s.spec_inputs_since(frame_id, k) == before + more);
            match c {
                Cell::History { index: at, slot } => {
                    if s.states.len() - (k - 1) <= at < s.states.len() {
                        assert(s.states[at].frame_id + at == s.states[0].frame_id);
                    }
                },
                Cell::Pending { ahead, slot } => {},
            }
        } else {
            assert(s.spec_inputs_since(frame_id, k) =~= before);
        }
    }
}

/// Whether the timeline `c` of a client can be healed by the timeline `s`
/// of the server from the frame `frame_id` on: both have that frame and
/// the same newest frame; after that frame the history of both is what
/// the simulation makes of it, on the same map; and for every later frame
/// the client has the clock and the edits of the server, and no input
/// where the server has none.
pub open spec fn spec_healable(c: TimelineView, s: TimelineView, frame_id: u32) -> bool {
    &&& c.wf()
    &&& s.wf()
    &&& c.map == s.map
    &&& c.top().frame_id == s.top().frame_id
    &&& frame_id <= s.top().frame_id
    &&& s.top().frame_id - frame_id < c.states.len()
    &&& s.top().frame_id - frame_id < s.states.len()
    &&& forall|j: int|
        0 <= j < s.top().frame_id - frame_id ==> #[trigger] spec_follows(c, s, j)
}

/// Whether, at the snapshot `j`, both timelines follow from their
/// snapshots before, and the client has the clock and the edits of the
/// server and no input where the server has none.
pub open spec fn spec_follows(c: TimelineView, s: TimelineView, j: int) -> bool {
    &&& c.states[j] == c.states[j + 1].spec_resimulate(c.states[j], c.map)
    &&& s.states[j] == s.states[j + 1].spec_resimulate(s.states[j], s.map)
    &&& c.states[j].time_us == s.states[j].time_us
    &&& c.states[j].edits == s.states[j].edits
    &&& forall|slot: int|
        0 <= slot < MAX_PLAYERS ==> (#[trigger] s.states[j].player_inputs.inputs[slot]
            == Input::NoInput ==> c.states[j].player_inputs.inputs[slot] == Input::NoInput)
}

/// The protocol heals. Let the server send its snapshot of the frame
/// `frame_id` and all inputs that it holds for later frames. A client
/// whose timeline can be healed from that frame, and that rebases on the
/// snapshot and propagates the inputs, holds the snapshots of the server
/// from that frame to the newest, whatever it had predicted.
#[verifier::rlimit(60)]
pub proof fn lemma_rebase_and_propagate_heal(
    c: TimelineView,
    s: TimelineView,
    frame_id: u32,
    j: int,
)
    requires
        spec_healable(c, s, frame_id),
        0 <= j <= s.top().frame_id - frame_id,
    ensures
        c.spec_rebase(s.states[s.top().frame_id - frame_id]).spec_propagate_inputs(
            s.spec_inputs_since(frame_id, s.states.len() as int),
        ).states[j] == s.states[j],
    decreases s.top().frame_id - frame_id - j,
{
    let i = s.top().frame_id - frame_id;
    let lkg = s.states[i];
    let delta = s.spec_inputs_since(frame_id, s.states.len() as int);
    let n = delta.len() as int;
    assert(lkg.frame_id + i == s.states[0].frame_id);
    assert(c.states[i].frame_id + i == c.states[0].frame_id);

    // the rebase puts the snapshot of the server at its frame, keeps what
    // the client holds of inputs, clocks and edits, and leaves the newer
    // snapshots following from it
    let r = c.spec_rebase(lkg);
    lemma_rebase_keeps_ring(c, lkg);
    assert(c.spec_index_of(lkg.frame_id) == Some(i));
    let based = c.states.update(i, lkg);
    if c.states[i] != lkg {
        lemma_replay_is_replay(based, c.map, i);
        assert forall|m: int| 0 <= m < c.states.len() implies (#[trigger] based[m]).frame_id + m
            == based[0].frame_id by {
            assert(c.states[m].frame_id + m == c.states[0].frame_id);
        }
    }
    assert(r.states[i] == lkg);
    assert forall|m: int| 0 <= m < i implies r.states[m] == r.states[m + 1].spec_resimulate(
        #[trigger] r.states[m],
        c.map,
    ) && r.states[m].player_inputs == c.states[m].player_inputs && r.states[m].time_us
        == c.states[m].time_us && r.states[m].edits == c.states[m].edits by {
        assert(spec_follows(c, s, m));
        if c.states[i] != lkg {
            lemma_replay_keeps_clock(r.states, based, c.map, i, m);
            assert(based[m] == c.states[m]);
        }
    }

    // the inputs of the server go to the cells of their frames
    let stored = r.spec_store_all(delta, n);
    let k = r.spec_replay_depth(delta, n);
    let w = r.spec_propagate_inputs(delta);
    lemma_store_all_is_stored(r, delta, n);
    lemma_depth_bounds(r, delta, n);
    lemma_replay_is_replay(stored.states, r.map, k);
    assert forall|cell: Cell| spec_cell_valid(r, cell) implies #[trigger] spec_last_write(
        r,
        delta,
        n,
        cell,
    ) == spec_written_since(r, s, frame_id, s.states.len() as int, cell) by {
        lemma_last_write_since(r, s, frame_id, s.states.len() as int, cell);
    }
    assert forall|m: int| 0 <= m <= i implies (#[trigger] stored.states[m]).time_us
        == r.states[m].time_us && stored.states[m].edits == r.states[m].edits && (m < i
        ==> stored.states[m].player_inputs == s.states[m].player_inputs) && (m == i
        ==> stored.states[m] == lkg) by {
        assert(spec_same_but_inputs(stored.states[m], r.states[m]));
        assert(s.states[m].frame_id + m == s.states[0].frame_id);
        assert forall|slot: int| 0 <= slot < MAX_PLAYERS implies spec_cell(
            stored,
            spec_history_cell(m, slot),
        ) == spec_cell(if m < i {
            s
        } else {
            r
        }, #[trigger] spec_history_cell(m, slot)) by {
            let cell = spec_history_cell(m, slot);
            assert(spec_cell_valid(r, cell));
            assert(spec_cell(stored, cell) == spec_cell_after(r, delta, n, cell));
            assert(spec_last_write(r, delta, n, cell) == spec_written_since(
                r,
                s,
                frame_id,
                s.states.len() as int,
                cell,
            ));
            if m < i {
                assert(spec_follows(c, s, m));
                assert(s.states[m].player_inputs.inputs[slot] == Input::NoInput
                    ==> c.states[m].player_inputs.inputs[slot] == Input::NoInput);
            }
        }
        if m < i {
            lemma_inputs_equal_by_cells(stored, s, m);
        } else {
            lemma_inputs_equal_by_cells(stored, r, m);
        }
    }

    // no input of the server is for the frame of the rebase or an older one
    assert(k <= i) by {
        if k > i {
            lemma_depth_reached(r, delta, n);
            let d = choose|d: int|
                0 <= d < n && r.spec_hits_history(#[trigger] delta[d]) && r.top().frame_id
                    - delta[d].frame_id + 1 == k;
            let at = r.top().frame_id - delta[d].frame_id;
            let cell = spec_history_cell(at, delta[d].player_id.0 as int);
            assert(spec_writes(r, delta[d], cell));
            lemma_written_is_last_written(r, delta, n, d, cell);
            assert(spec_cell_valid(r, cell));
            assert(spec_last_write(r, delta, n, cell) == spec_written_since(
                r,
                s,
                frame_id,
                s.states.len() as int,
                cell,
            ));
            assert(s.states[at].frame_id + at == s.states[0].frame_id);
        }
    }

    // so from the frame of the rebase on the client follows the server
    lemma_replay_keeps_clock(w.states, stored.states, r.map, k, j);
    if j == i {
        assert(w.states[i] == stored.states[i]);
    } else {
        lemma_rebase_and_propagate_heal(c, s, frame_id, j + 1);
        assert(spec_follows(c, s, j));
        lemma_replay_keeps_clock(w.states, stored.states, r.map, k, j + 1);
        if j < k {
            assert(w.states[j] == w.states[j + 1].spec_resimulate(stored.states[j], r.map));
        } else {
            assert(w.states[j] == stored.states[j]);
            assert(w.states[j + 1] == stored.states[j + 1]);
            assert(spec_same_but_inputs(stored.states[j], r.states[j]));
            assert(spec_same_but_inputs(stored.states[j + 1], r.states[j + 1]));
            assert(r.states[j] == r.states[j + 1].spec_resimulate(r.states[j], c.map));
            assert(stored.states[j].player_inputs == r.states[j].player_inputs) by {
                assert forall|slot: int| 0 <= slot < MAX_PLAYERS implies spec_cell(
                    stored,
                    spec_history_cell(j, slot),
                ) == spec_cell(r, #[trigger] spec_history_cell(j, slot)) by {
                    let cell = spec_history_cell(j, slot);
                    assert(spec_cell_valid(r, cell));
                    assert(spec_last_write(r, delta, n, cell) is None);
                    assert(spec_cell(stored, cell) == spec_cell_after(r, delta, n, cell));
                }
                lemma_inputs_equal_by_cells(stored, r, j);
            }
            if j + 1 < i {
                assert(stored.states[j + 1].player_inputs == r.states[j + 1].player_inputs) by {
                    assert forall|slot: int| 0 <= slot < MAX_PLAYERS implies spec_cell(
                        stored,
                        spec_history_cell(j + 1, slot),
                    ) == spec_cell(r, #[trigger] spec_history_cell(j + 1, slot)) by {
                        let cell = spec_history_cell(j + 1, slot);
                        assert(spec_cell_valid(r, cell));
                        assert(spec_last_write(r, delta, n, cell) is None);
                        assert(spec_cell(stored, cell) == spec_cell_after(r, delta, n, cell));
                    }
                    lemma_inputs_equal_by_cells(stored, r, j + 1);
                }
            }
        }
    }
}

/// Where inputs reach into the history at all, one of them reaches as far
/// as they do.
pub proof fn lemma_depth_reached(v: TimelineView, ds: Seq<RemoteInput>, n: int)
    requires
        n <= ds.len(),
        v.spec_replay_depth(ds, n) > 0,
    ensures
        exists|d: int|
            0 <= d < n && v.spec_hits_history(#[trigger] ds[d]) && v.top().frame_id
                - ds[d].frame_id + 1 == v.spec_replay_depth(ds, n),
    decreases n,
{
    if n > 0 {
        let before = v.spec_replay_depth(ds, n - 1);
        if v.spec_hits_history(ds[n - 1]) && v.top().frame_id - ds[n - 1].frame_id + 1
            > before {
        } else {
            lemma_depth_reached(v, ds, n - 1);
        }
    }
}

/// A cell that one of the inputs writes has been written.
pub proof fn lemma_written_is_last_written(
    v: TimelineView,
    ds: Seq<RemoteInput>,
    n: int,
    d: int,
    c: Cell,
)
    requires
        0 <= d < n <= ds.len(),
        spec_writes(v, ds[d], c),
    ensures
        spec_last_write(v, ds, n, c) is Some,
    decreases n,
{
    if d < n - 1 {
        lemma_written_is_last_written(v, ds, n - 1, d, c);
    }
}

/// Whether the snapshot `j` of both histories follows from the snapshot
/// before it, with the same inputs, clock and edits in both.
pub open spec fn spec_same_step(
    a: Seq<GameState>,
    b: Seq<GameState>,
    map: crate::map::GameMap,
    j: int,
) -> bool {
    &&& a[j] == a[j + 1].spec_resimulate(a[j], map)
    &&& b[j] == b[j + 1].spec_resimulate(b[j], map)
    &&& a[j].player_inputs == b[j].player_inputs
    &&& a[j].time_us == b[j].time_us
    &&& a[j].edits == b[j].edits
}

/// A snapshot and what happened after it decide the history: two histories
/// that share a snapshot, and in which every later snapshot follows from
/// the one before it with the same inputs, clock and edits, are the same
/// from that snapshot on. So an input that arrives late and is propagated
/// leads to the snapshots to which it would have led had it come in time.
pub proof fn lemma_history_is_decided(
    a: Seq<GameState>,
    b: Seq<GameState>,
    map: crate::map::GameMap,
    i: int,
    j: int,
)
    requires
        0 <= j <= i,
        i < a.len(),
        i < b.len(),
        a[i] == b[i],
        forall|m: int| 0 <= m < i ==> #[trigger] spec_same_step(a, b, map, m),
    ensures
        a[j] == b[j],
    decreases i - j,
{
    if j < i {
        lemma_history_is_decided(a, b, map, i, j + 1);
        assert(spec_same_step(a, b, map, j));
    }
}

} // verus!
