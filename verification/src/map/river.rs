//! Rivers. Lilypads drift like cars on a road, from the moment the round
//! lets them spawn; a frog on a river row lives only on a lilypad.

use vstd::prelude::*;
use crate::game::sat_sub;
use crate::game::LillipadId;
use crate::game::PreciseCoords;
use crate::map::road::Road;
use crate::map::road::RoadModel;
use crate::map::road::CYCLE;
use crate::math::abs_diff;

verus! {

/// How far, in thousandths of a tile, a frog may stand from the left edge of
/// a lilypad and still be on it.
pub const LILLIPAD_CATCH: i32 = 750;

/// What a map row says of its river.
#[derive(Clone, Copy, Debug, PartialEq, Eq, Structural)]
pub struct RiverDescr {
    pub seed: u32,
    pub inverted: bool,
}

/// When the lilypads of the current round began to drift.
#[derive(Clone, Copy, Debug, PartialEq, Eq, Structural)]
pub struct RiverSpawnTimes {
    pub start_us: u32,
}

/// A lilypad as a client draws it: the column in thousandths of a tile, and the row.
#[derive(Clone, Copy, Debug, PartialEq, Eq, Structural)]
pub struct LillyPublic(pub i32, pub i32);

/// A river with its lilypads at the time they spawn.
#[derive(Debug)]
pub struct River {
    pub lane: Road,
}

impl RiverSpawnTimes {
    /// The spawn times of a game in which no round has begun.
    pub fn empty() -> (r: Self)
        ensures
            r == (RiverSpawnTimes { start_us: 0 }),
    {
        RiverSpawnTimes { start_us: 0 }
    }

    /// The time for which the lilypads have drifted at `time_us`.
    pub open spec fn spec_elapsed(self, time_us: u32) -> u32 {
        sat_sub(time_us, self.start_us)
    }

    pub fn elapsed(&self, time_us: u32) -> (r: u32)
        ensures
            r == self.spec_elapsed(time_us),
    {
        time_us.saturating_sub(self.start_us)
    }
}

impl View for River {
    type V = RoadModel;

    open spec fn view(&self) -> RoadModel {
        self.lane@
    }
}

/// The column of lilypad `k` of the lane after `elapsed` microseconds.
pub open spec fn spec_pad_x(lane: RoadModel, elapsed: u32, k: int) -> int {
    lane.spec_realise_car(lane.cars0[k].spec_drive(elapsed))
}

/// Whether lilypad `k` carries a frog that stands at column `x`.
pub open spec fn spec_pad_catches(lane: RoadModel, elapsed: u32, k: int, x: i32) -> bool {
    abs_diff(spec_pad_x(lane, elapsed, k), x as int) <= LILLIPAD_CATCH
}

/// The first lilypad at or after `from` that carries a frog at column `x`.
pub open spec fn spec_first_pad(lane: RoadModel, elapsed: u32, x: i32, from: int) -> Option<int>
    decreases lane.cars0.len() - from,
{
    if from < 0 || from >= lane.cars0.len() {
        None
    } else if spec_pad_catches(lane, elapsed, from, x) {
        Some(from)
    } else {
        spec_first_pad(lane, elapsed, x, from + 1)
    }
}

/// The lilypad of the lane that carries a frog at `pos`, if any: the first
/// of the comb that is near enough, and none on another row.
pub open spec fn spec_lillipad_at(lane: RoadModel, elapsed: u32, pos: PreciseCoords) -> Option<
    LillipadId,
> {
    if pos.y != lane.y {
        None
    } else {
        match spec_first_pad(lane, elapsed, pos.x, 0) {
            Some(k) => Some(LillipadId { id: k as u8, y: lane.y }),
            None => None,
        }
    }
}

/// The column of the lilypad `id`, or `None` where the lane has no such pad.
pub open spec fn spec_lillipad_x(lane: RoadModel, elapsed: u32, id: LillipadId) -> Option<int> {
    if id.y == lane.y && id.id < lane.cars0.len() {
        Some(spec_pad_x(lane, elapsed, id.id as int))
    } else {
        None
    }
}

/// The lilypads of the lane as a client draws them, up to pad `n`.
pub open spec fn spec_pads_public(lane: RoadModel, elapsed: u32, n: int) -> Seq<LillyPublic> {
    Seq::new(
        if n < 0 {
            0nat
        } else {
            n as nat
        },
        |k: int| LillyPublic(spec_pad_x(lane, elapsed, k) as i32, lane.y),
    )
}

impl River {
    /// A river is well formed when its lane is, and short enough for the
    /// pads to be numbered by a byte.
    pub open spec fn wf(&self) -> bool {
        self.lane@.wf() && self.lane@.cars0.len() <= 255
    }

    /// Tests `wf`. Every river that `from_seed` has built passes.
    pub fn is_well_formed(&self) -> (r: bool)
        ensures
            r == self.wf(),
    {
        self.lane.is_well_formed() && self.lane.cars0.len() <= 255
    }

    /// Builds the river of a row from its seed.
    pub fn from_seed(seed: u32, y: i32, inverted: bool) -> (r: Self)
        ensures
            r@ == RoadModel::spec_from_seed(seed, y, inverted),
            r.wf(),
    {
        let lane = Road::from_seed(seed, y, inverted);
        proof {
            lemma_comb_len(seed as u64, lane@.half_width, 1, 0);
        }
        River { lane }
    }

    fn pad_x(&self, elapsed: u32, k: usize) -> (r: i32)
        requires
            self.wf(),
            k < self.lane.cars0.len(),
        ensures
            r == spec_pad_x(self@, elapsed, k as int),
    {
        let driven = self.lane.cars0[k].drive(elapsed);
        self.lane.realise_car(&driven)
    }

    /// The lilypad that carries a frog at `pos`, if any.
    pub fn lillipad_at_pos(&self, elapsed: u32, pos: PreciseCoords) -> (r: Option<LillipadId>)
        requires
            self.wf(),
        ensures
            r == spec_lillipad_at(self@, elapsed, pos),
    {
        if pos.y != self.lane.y {
            return None;
        }
        let mut k: usize = 0;
        while k < self.lane.cars0.len()
            invariant
                self.wf(),
                k <= self.lane.cars0.len(),
                pos.y == self.lane.y,
                spec_first_pad(self@, elapsed, pos.x, 0) == spec_first_pad(
                    self@,
                    elapsed,
                    pos.x,
                    k as int,
                ),
            decreases self.lane.cars0.len() - k,
        {
            let x = self.pad_x(elapsed, k);
            let d: i64 = if x as i64 >= pos.x as i64 {
                x as i64 - pos.x as i64
            } else {
                pos.x as i64 - x as i64
            };
            if d <= LILLIPAD_CATCH as i64 {
                return Some(LillipadId { id: k as u8, y: self.lane.y });
            }
            k = k + 1;
        }
        None
    }

    /// The column of the lilypad `id`, in thousandths of a tile.
    pub fn get_lillipad_screen_x(&self, elapsed: u32, id: &LillipadId) -> (r: Option<i32>)
        requires
            self.wf(),
        ensures
            r matches Some(x) ==> spec_lillipad_x(self@, elapsed, *id) == Some(x as int),
            r is None ==> spec_lillipad_x(self@, elapsed, *id) is None,
    {
        if id.y == self.lane.y && (id.id as usize) < self.lane.cars0.len() {
            Some(self.pad_x(elapsed, id.id as usize))
        } else {
            None
        }
    }

    /// All lilypads of the river as a client draws them.
    pub fn get_lillipads_public(&self, elapsed: u32) -> (r: Vec<LillyPublic>)
        requires
            self.wf(),
        ensures
            r@ == spec_pads_public(self@, elapsed, self@.cars0.len() as int),
    {
        let mut out: Vec<LillyPublic> = Vec::new();
        let mut k: usize = 0;
        while k < self.lane.cars0.len()
            invariant
                self.wf(),
                k <= self.lane.cars0.len(),
                out@ == spec_pads_public(self@, elapsed, k as int),
            decreases self.lane.cars0.len() - k,
        {
            let x = self.pad_x(elapsed, k);
            out.push(LillyPublic(x, self.lane.y));
            assert(out@ =~= spec_pads_public(self@, elapsed, k + 1));
            k = k + 1;
        }
        out
    }
}

/// From a car at `cur` on, a comb has at most one tooth per 300 000 units
/// that are left of the cycle.
pub proof fn lemma_comb_len(seed: u64, w: u32, i: int, cur: int)
    requires
        crate::map::road::HALF_WIDTH_MIN <= w <= crate::map::road::HALF_WIDTH_MAX,
        0 <= cur,
    ensures
        crate::map::road::spec_comb(seed, w, i, cur).len() * 300_000 <= if cur < CYCLE {
            CYCLE - cur
        } else {
            0
        },
    decreases CYCLE - cur,
{
    let step = crate::rng::spec_next_range(
        seed,
        i as i32,
        crate::map::road::min_spacing(w),
        crate::map::road::max_spacing(w),
    );
    let next = cur + step;
    if cur < 0 || step == 0 || next >= CYCLE {
    } else {
        assert(step >= 300_000);
        lemma_comb_len(seed, w, i + 1, next);
    }
}

} // verus!
