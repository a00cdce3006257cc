//! The procedural map: rows, roads and rivers as functions of the seed.

pub mod road;
pub mod river;

use vstd::prelude::*;
use vstd::string::StringSliceAdditionalSpecFns;
use crate::game::CoordPos;
use crate::game::LillipadId;
use crate::game::PreciseCoords;
use crate::game::FIELD_WIDTH;
use crate::map::river::spec_lillipad_at;
use crate::map::river::spec_lillipad_x;
use crate::map::river::spec_pads_public;
use crate::map::river::LillyPublic;
use crate::map::river::River;
use crate::map::river::RiverDescr;
use crate::map::river::RiverSpawnTimes;
use crate::map::road::CarPublic;
use crate::map::road::Road;
use crate::map::road::RoadDescr;
use crate::map::road::RoadModel;
use crate::rng::froggy_gen;
use crate::rng::FroggyRng;

verus! {

/// The number of rows on the screen.
pub const SCREEN_ROWS: i32 = 20;

/// The round id of the lobby; rounds are numbered from 1.
pub const LOBBY_ROUND: u8 = 0;

/// The row of the starting barrier. Rows below it are the starting grass,
/// the six rows above it are lined by the stands.
pub const BARRIER_ROW: i32 = 17;

pub const STANDS_TOP_ROW: i32 = 11;

/// The kinds of row.
#[derive(Clone, Copy, Debug, PartialEq, Eq, Structural)]
pub enum RowType {
    Grass,
    Road(RoadDescr),
    River(RiverDescr),
    Path { wall_width: u8 },
    Bushes { wall_width: u8 },
    Stands,
    StartingBarrier,
    IcyRow { wall_width: u8 },
    Lobby,
}

/// One row of the map.
#[derive(Clone, Copy, Debug, PartialEq, Eq, Structural)]
pub struct Row {
    pub y: i32,
    pub row_type: RowType,
}

/// The map of one game (the name `Map` is taken by the sequence library). Rows, cars and lilypads are functions of the seed,
/// the round and the time; the map holds nothing else.
#[derive(Clone, Copy, Debug, PartialEq, Eq, Structural)]
pub struct GameMap {
    pub seed: u32,
}

/// The seed that the first `n` bytes of a name give: each byte is folded
/// into the number so far, times 31, modulo 2^32.
pub open spec fn spec_seed_upto(bytes: Seq<u8>, n: int) -> u32
    decreases n,
{
    if n <= 0 {
        0
    } else {
        ((spec_seed_upto(bytes, n - 1) * 31 + bytes[n - 1]) % 0x1_0000_0000) as u32
    }
}

/// The seed that a name gives.
pub open spec fn spec_seed_of(bytes: Seq<u8>) -> u32 {
    spec_seed_upto(bytes, bytes.len() as int)
}

/// The draw that decides row `y` of round `round_id`.
pub open spec fn spec_row_draw(seed: u32, round_id: u8, y: i32) -> u64 {
    froggy_gen(froggy_gen(seed as u64, round_id as i32), y)
}

/// The kind of a generated row, by its draw: of a hundred rows thirty are
/// roads, twenty rivers, twenty-five paths, ten bushes, five icy and ten grass.
pub open spec fn spec_generated_row(draw: u64) -> RowType {
    let kind = draw % 100;
    let seed = ((draw / 200) % 0x1_0000_0000) as u32;
    let inverted = (draw / 100) % 2 == 1;
    let wall_width = ((draw / 200) % 4) as u8;
    if kind < 30 {
        RowType::Road(RoadDescr { seed, inverted })
    } else if kind < 50 {
        RowType::River(RiverDescr { seed, inverted })
    } else if kind < 75 {
        RowType::Path { wall_width }
    } else if kind < 85 {
        RowType::Bushes { wall_width }
    } else if kind < 90 {
        RowType::IcyRow { wall_width }
    } else {
        RowType::Grass
    }
}

/// The kind of row `y` in round `round_id`. The lobby is all lobby rows. A
/// round has its fixed band at the bottom: grass, the starting barrier and
/// the stands; every row above is generated from the seed.
pub open spec fn spec_row_type(seed: u32, round_id: u8, y: i32) -> RowType {
    if round_id == LOBBY_ROUND {
        RowType::Lobby
    } else if y > BARRIER_ROW {
        RowType::Grass
    } else if y == BARRIER_ROW {
        RowType::StartingBarrier
    } else if y >= STANDS_TOP_ROW {
        RowType::Stands
    } else {
        spec_generated_row(spec_row_draw(seed, round_id, y))
    }
}

/// The kind of a generated row, from its draw.
pub fn generated_row(draw: u64) -> (r: RowType)
    ensures
        r == spec_generated_row(draw),
{
    let kind = draw % 100;
    let seed = ((draw / 200) % 0x1_0000_0000) as u32;
    let inverted = (draw / 100) % 2 == 1;
    let wall_width = ((draw / 200) % 4) as u8;
    if kind < 30 {
        RowType::Road(RoadDescr { seed, inverted })
    } else if kind < 50 {
        RowType::River(RiverDescr { seed, inverted })
    } else if kind < 75 {
        RowType::Path { wall_width }
    } else if kind < 85 {
        RowType::Bushes { wall_width }
    } else if kind < 90 {
        RowType::IcyRow { wall_width }
    } else {
        RowType::Grass
    }
}

impl RowType {
    /// Whether an obstacle of the row fills column `x`. The starting barrier
    /// closes its gap while `barrier_up` holds.
    pub open spec fn spec_blocks(self, x: i32, barrier_up: bool) -> bool {
        match self {
            RowType::Path { wall_width } => x <= wall_width || x >= FIELD_WIDTH - 1 - wall_width,
            RowType::Bushes { wall_width } => x <= wall_width || x >= FIELD_WIDTH - 1 - wall_width,
            RowType::IcyRow { wall_width } => x <= wall_width || x >= FIELD_WIDTH - 1 - wall_width,
            RowType::Stands => x <= 6 || x >= 13,
            RowType::StartingBarrier => x <= 6 || x >= 13 || barrier_up,
            _ => false,
        }
    }

    pub fn blocks(&self, x: i32, barrier_up: bool) -> (r: bool)
        ensures
            r == self.spec_blocks(x, barrier_up),
    {
        match self {
            RowType::Path { wall_width } => x <= *wall_width as i32 || x >= FIELD_WIDTH - 1
                - *wall_width as i32,
            RowType::Bushes { wall_width } => x <= *wall_width as i32 || x >= FIELD_WIDTH - 1
                - *wall_width as i32,
            RowType::IcyRow { wall_width } => x <= *wall_width as i32 || x >= FIELD_WIDTH - 1
                - *wall_width as i32,
            RowType::Stands => x <= 6 || x >= 13,
            RowType::StartingBarrier => x <= 6 || x >= 13 || barrier_up,
            _ => false,
        }
    }
}

impl GameMap {
    /// The row `y` of round `round_id`.
    pub open spec fn spec_get_row(self, round_id: u8, y: i32) -> Row {
        Row { y, row_type: spec_row_type(self.seed, round_id, y) }
    }

    /// Whether a player may not enter the tile: it lies off the field or an
    /// obstacle of its row fills it.
    pub open spec fn spec_blocked(self, round_id: u8, pos: CoordPos, barrier_up: bool) -> bool {
        !pos.spec_on_field() || spec_row_type(self.seed, round_id, pos.y).spec_blocks(
            pos.x,
            barrier_up,
        )
    }

    /// Whether a car hits a frog on the tile `pos` at `time_us`.
    pub open spec fn spec_collides_car(self, round_id: u8, time_us: u32, pos: CoordPos) -> bool {
        match spec_row_type(self.seed, round_id, pos.y) {
            RowType::Road(d) => RoadModel::spec_from_seed(
                d.seed,
                pos.y,
                d.inverted,
            ).spec_collides_car(time_us, pos),
            _ => false,
        }
    }

    /// The lilypad that carries a frog at `pos` at `time_us`, if any.
    pub open spec fn spec_lillipad_at_pos(
        self,
        round_id: u8,
        spawn_times: RiverSpawnTimes,
        time_us: u32,
        pos: PreciseCoords,
    ) -> Option<LillipadId> {
        match spec_row_type(self.seed, round_id, pos.y) {
            RowType::River(d) => spec_lillipad_at(
                RoadModel::spec_from_seed(d.seed, pos.y, d.inverted),
                spawn_times.spec_elapsed(time_us),
                pos,
            ),
            _ => None,
        }
    }

    /// The column of a lilypad at `time_us`, in thousandths of a tile, or
    /// `None` where the row has no such lilypad.
    pub open spec fn spec_lillipad_screen_x(
        self,
        round_id: u8,
        spawn_times: RiverSpawnTimes,
        time_us: u32,
        id: LillipadId,
    ) -> Option<int> {
        match spec_row_type(self.seed, round_id, id.y) {
            RowType::River(d) => spec_lillipad_x(
                RoadModel::spec_from_seed(d.seed, id.y, d.inverted),
                spawn_times.spec_elapsed(time_us),
                id,
            ),
            _ => None,
        }
    }

    /// The cars of row `y` that show on the screen at `time_us`.
    pub open spec fn spec_row_cars(self, round_id: u8, time_us: u32, y: i32) -> Seq<CarPublic> {
        match spec_row_type(self.seed, round_id, y) {
            RowType::Road(d) => RoadModel::spec_from_seed(d.seed, y, d.inverted).spec_cars_public(
                time_us,
            ),
            _ => Seq::empty(),
        }
    }

    /// The cars of the `n` rows from `y0` down, row after row; rows past the
    /// last row of the world hold none.
    pub open spec fn spec_cars_upto(self, round_id: u8, time_us: u32, y0: i32, n: int) -> Seq<
        CarPublic,
    >
        decreases n,
    {
        if n <= 0 {
            Seq::empty()
        } else if y0 + n - 1 > i32::MAX {
            self.spec_cars_upto(round_id, time_us, y0, n - 1)
        } else {
            self.spec_cars_upto(round_id, time_us, y0, n - 1) + self.spec_row_cars(
                round_id,
                time_us,
                (y0 + n - 1) as i32,
            )
        }
    }

    /// The lilypads of row `y` at `time_us`.
    pub open spec fn spec_row_lillipads(
        self,
        round_id: u8,
        spawn_times: RiverSpawnTimes,
        time_us: u32,
        y: i32,
    ) -> Seq<LillyPublic> {
        match spec_row_type(self.seed, round_id, y) {
            RowType::River(d) => {
                let lane = RoadModel::spec_from_seed(d.seed, y, d.inverted);
                spec_pads_public(lane, spawn_times.spec_elapsed(time_us), lane.cars0.len() as int)
            },
            _ => Seq::empty(),
        }
    }

    /// The lilypads of the `n` rows from `y0` down, row after row; rows past
    /// the last row of the world hold none.
    pub open spec fn spec_lillipads_upto(
        self,
        round_id: u8,
        spawn_times: RiverSpawnTimes,
        time_us: u32,
        y0: i32,
        n: int,
    ) -> Seq<LillyPublic>
        decreases n,
    {
        if n <= 0 {
            Seq::empty()
        } else if y0 + n - 1 > i32::MAX {
            self.spec_lillipads_upto(round_id, spawn_times, time_us, y0, n - 1)
        } else {
            self.spec_lillipads_upto(round_id, spawn_times, time_us, y0, n - 1)
                + self.spec_row_lillipads(round_id, spawn_times, time_us, (y0 + n - 1) as i32)
        }
    }

    /// The map of the game that is named `seed`.
    pub fn new(seed: &str) -> (r: Self)
        ensures
            r.seed == spec_seed_of(seed.spec_bytes()),
    {
        let bytes = seed.as_bytes();
        let mut h: u32 = 0;
        let mut i: usize = 0;
        while i < bytes.len()
            invariant
                i <= bytes.len(),
                bytes@ == seed.spec_bytes(),
                h == spec_seed_upto(bytes@, i as int),
            decreases bytes.len() - i,
        {
            h = ((h as u64 * 31 + bytes[i] as u64) % 0x1_0000_0000) as u32;
            i = i + 1;
        }
        GameMap { seed: h }
    }

    /// The map with exactly this seed.
    pub fn exact_seed(seed: u32) -> (r: Self)
        ensures
            r.seed == seed,
    {
        GameMap { seed }
    }

    pub fn get_seed(&self) -> (r: u32)
        ensures
            r == self.seed,
    {
        self.seed
    }

    /// The row `y` of round `round_id`.
    pub fn get_row(&self, round_id: u8, y: i32) -> (r: Row)
        ensures
            r == self.spec_get_row(round_id, y),
    {
        let row_type = if round_id == LOBBY_ROUND {
            RowType::Lobby
        } else if y > BARRIER_ROW {
            RowType::Grass
        } else if y == BARRIER_ROW {
            RowType::StartingBarrier
        } else if y >= STANDS_TOP_ROW {
            RowType::Stands
        } else {
            generated_row(FroggyRng::new(self.seed as u64).subrand(round_id as i32).gen(y))
        };
        Row { y, row_type }
    }

    /// The rows that show when row `screen_y` is the top of the screen, from
    /// the top down; rows beyond the last row of the world are left out.
    pub fn get_row_view(&self, round_id: u8, screen_y: i32) -> (r: Vec<Row>)
        ensures
            r@.len() <= SCREEN_ROWS,
            r@.len() == if screen_y as int + SCREEN_ROWS - 1 <= i32::MAX {
                SCREEN_ROWS as int
            } else {
                i32::MAX - screen_y + 1
            },
            forall|k: int|
                0 <= k < r@.len() ==> #[trigger] r@[k] == self.spec_get_row(
                    round_id,
                    (screen_y + k) as i32,
                ),
    {
        let mut rows: Vec<Row> = Vec::new();
        let mut k: i32 = 0;
        while k < SCREEN_ROWS && screen_y as i64 + k as i64 <= i32::MAX as i64
            invariant
                0 <= k <= SCREEN_ROWS,
                rows@.len() == k,
                k > 0 ==> screen_y + k - 1 <= i32::MAX,
                forall|j: int|
                    0 <= j < k ==> #[trigger] rows@[j] == self.spec_get_row(
                        round_id,
                        (screen_y + j) as i32,
                    ),
            decreases SCREEN_ROWS - k,
        {
            rows.push(self.get_row(round_id, screen_y + k));
            k = k + 1;
        }
        rows
    }

    /// Whether a player may not enter the tile.
    pub fn blocked(&self, round_id: u8, pos: CoordPos, barrier_up: bool) -> (r: bool)
        ensures
            r == self.spec_blocked(round_id, pos, barrier_up),
    {
        if !pos.on_field() {
            return true;
        }
        self.get_row(round_id, pos.y).row_type.blocks(pos.x, barrier_up)
    }

    /// Whether a car hits a frog on the tile `pos` at `time_us`.
    pub fn collides_car(&self, round_id: u8, time_us: u32, pos: CoordPos) -> (r: bool)
        ensures
            r == self.spec_collides_car(round_id, time_us, pos),
    {
        match self.get_row(round_id, pos.y).row_type {
            RowType::Road(d) => {
                let road = Road::from_seed(d.seed, pos.y, d.inverted);
                road.collides_car(time_us, pos)
            },
            _ => false,
        }
    }

    /// The lilypad that carries a frog at `pos` at `time_us`, if any.
    pub fn lillipad_at_pos(
        &self,
        round_id: u8,
        spawn_times: &RiverSpawnTimes,
        time_us: u32,
        pos: PreciseCoords,
    ) -> (r: Option<LillipadId>)
        ensures
            r == self.spec_lillipad_at_pos(round_id, *spawn_times, time_us, pos),
    {
        match self.get_row(round_id, pos.y).row_type {
            RowType::River(d) => {
                let river = River::from_seed(d.seed, pos.y, d.inverted);
                river.lillipad_at_pos(spawn_times.elapsed(time_us), pos)
            },
            _ => None,
        }
    }

    /// The column of a lilypad at `time_us`, in thousandths of a tile.
    pub fn get_lillipad_screen_x(
        &self,
        round_id: u8,
        spawn_times: &RiverSpawnTimes,
        time_us: u32,
        id: &LillipadId,
    ) -> (r: Option<i32>)
        ensures
            r matches Some(x) ==> self.spec_lillipad_screen_x(
                round_id,
                *spawn_times,
                time_us,
                *id,
            ) == Some(x as int),
            r is None ==> self.spec_lillipad_screen_x(round_id, *spawn_times, time_us, *id)
                is None,
    {
        match self.get_row(round_id, id.y).row_type {
            RowType::River(d) => {
                let river = River::from_seed(d.seed, id.y, d.inverted);
                river.get_lillipad_screen_x(spawn_times.elapsed(time_us), id)
            },
            _ => None,
        }
    }

    /// The cars on the screen whose top row is `screen_y`, row after row.
    pub fn get_cars(&self, round_id: u8, time_us: u32, screen_y: i32) -> (r: Vec<CarPublic>)
        ensures
            r@ == self.spec_cars_upto(round_id, time_us, screen_y, SCREEN_ROWS as int),
    {
        let mut out: Vec<CarPublic> = Vec::new();
        let mut k: i32 = 0;
        while k < SCREEN_ROWS
            invariant
                0 <= k <= SCREEN_ROWS,
                out@ == self.spec_cars_upto(round_id, time_us, screen_y, k as int),
            decreases SCREEN_ROWS - k,
        {
            if screen_y as i64 + k as i64 <= i32::MAX as i64 {
                let y = screen_y + k;
                match self.get_row(round_id, y).row_type {
                    RowType::Road(d) => {
                        let road = Road::from_seed(d.seed, y, d.inverted);
                        let mut cars = road.get_cars_public(time_us);
                        out.append(&mut cars);
                    },
                    _ => {
                        assert(out@ + Seq::<CarPublic>::empty() =~= out@);
                    },
                }
            }
            k = k + 1;
        }
        out
    }

    /// The lilypads on the screen whose top row is `screen_y`, row after row.
    pub fn get_lillipads(
        &self,
        round_id: u8,
        time_us: u32,
        spawn_times: &RiverSpawnTimes,
        screen_y: i32,
    ) -> (r: Vec<LillyPublic>)
        ensures
            r@ == self.spec_lillipads_upto(
                round_id,
                *spawn_times,
                time_us,
                screen_y,
                SCREEN_ROWS as int,
            ),
    {
        let mut out: Vec<LillyPublic> = Vec::new();
        let mut k: i32 = 0;
        while k < SCREEN_ROWS
            invariant
                0 <= k <= SCREEN_ROWS,
                out@ == self.spec_lillipads_upto(
                    round_id,
                    *spawn_times,
                    time_us,
                    screen_y,
                    k as int,
                ),
            decreases SCREEN_ROWS - k,
        {
            if screen_y as i64 + k as i64 <= i32::MAX as i64 {
                let y = screen_y + k;
                match self.get_row(round_id, y).row_type {
                    RowType::River(d) => {
                        let river = River::from_seed(d.seed, y, d.inverted);
                        let mut pads = river.get_lillipads_public(spawn_times.elapsed(time_us));
                        out.append(&mut pads);
                    },
                    _ => {
                        assert(out@ + Seq::<LillyPublic>::empty() =~= out@);
                    },
                }
            }
            k = k + 1;
        }
        out
    }
}

} // verus!
