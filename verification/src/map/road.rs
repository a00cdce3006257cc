//! Roads. The cars of a road are a closed function of time: a comb of
//! offsets on a cycle, all driven at the same speed, seen through a window.

use vstd::prelude::*;
use crate::game::CoordPos;
use crate::math::abs_diff;
use crate::math::div_floor;
use crate::rng::spec_next_range;
use crate::rng::FroggyRng;

verus! {

/// The length of the cycle on which cars drive. A car moves one unit per
/// microsecond, so a lap takes eight seconds.
pub const CYCLE: u32 = 8_000_000;

/// The width of the screen in tiles.
pub const SCREEN_SIZE: u32 = 20;

/// The width of a car in tiles.
pub const CAR_WIDTH: u32 = 3;

/// Bounds of the half width of the window, in cycle units: a fifth and a
/// quarter of the cycle.
pub const HALF_WIDTH_MIN: u32 = 1_600_000;

pub const HALF_WIDTH_MAX: u32 = 2_000_000;

/// What a map row says of its road.
#[derive(Clone, Copy, Debug, PartialEq, Eq, Structural)]
pub struct RoadDescr {
    pub seed: u32,
    pub inverted: bool,
}

/// A car, by its place on the cycle: below `CYCLE`.
#[derive(Clone, Copy, Debug, PartialEq, Eq, Structural)]
pub struct Car(pub u32);

/// A car as a client draws it: the column in thousandths of a tile, the row,
/// and whether it drives from right to left.
#[derive(Clone, Copy, Debug, PartialEq, Eq, Structural)]
pub struct CarPublic(pub i32, pub i32, pub bool);

/// A road with its cars at time 0.
#[derive(Debug)]
pub struct Road {
    pub cars0: Vec<Car>,
    pub y: i32,
    pub half_width: u32,
    pub inverted: bool,
}

/// The least distance between two neighbours of the comb: a car and a
/// quarter, measured on the screen.
pub open spec fn min_spacing(w: u32) -> u32 {
    (w * 3 / 16) as u32
}

/// The largest distance between two neighbours of the comb: sixteen cars.
pub open spec fn max_spacing(w: u32) -> u32 {
    (w * 12 / 5) as u32
}

/// The comb from its car number `i` on, where the car before stands at `cur`:
/// each car stands one draw of the spacing behind the last, up to the end of
/// the cycle.
pub open spec fn spec_comb(seed: u64, w: u32, i: int, cur: int) -> Seq<Car>
    decreases CYCLE - cur,
{
    let step = spec_next_range(seed, i as i32, min_spacing(w), max_spacing(w));
    let next = cur + step;
    if cur < 0 || step == 0 || next >= CYCLE {
        Seq::empty()
    } else {
        seq![Car(next as u32)] + spec_comb(seed, w, i + 1, next)
    }
}

/// The half width of the window of the road with seed `seed`.
pub open spec fn spec_half_width(seed: u32) -> u32 {
    spec_next_range(seed as u64, 0, HALF_WIDTH_MIN, HALF_WIDTH_MAX)
}

impl Car {
    /// The car after `time_us` microseconds.
    pub open spec fn spec_drive(self, time_us: u32) -> Car {
        Car(((self.0 + time_us) % (CYCLE as int)) as u32)
    }

    pub fn drive(self, time_us: u32) -> (r: Car)
        ensures
            r == self.spec_drive(time_us),
            r.0 < CYCLE,
    {
        Car(((self.0 as u64 + time_us as u64) % (CYCLE as u64)) as u32)
    }
}

/// Whether a car at column `x_milli` shows on the screen, a car's width
/// beyond either edge included.
pub open spec fn spec_on_screen(x_milli: int) -> bool {
    -(CAR_WIDTH * 1000) < x_milli < (SCREEN_SIZE + CAR_WIDTH) * 1000
}

/// A road as the contracts see it: the comb as a sequence.
pub struct RoadModel {
    pub cars0: Seq<Car>,
    pub y: i32,
    pub half_width: u32,
    pub inverted: bool,
}

impl View for Road {
    type V = RoadModel;

    open spec fn view(&self) -> RoadModel {
        RoadModel {
            cars0: self.cars0@,
            y: self.y,
            half_width: self.half_width,
            inverted: self.inverted,
        }
    }
}

impl RoadModel {
    /// The cars stand in order on the cycle, no two at one place, and the
    /// window has a width that `from_seed` can give.
    pub open spec fn wf(self) -> bool {
        &&& HALF_WIDTH_MIN <= self.half_width <= HALF_WIDTH_MAX
        &&& forall|i: int| 0 <= i < self.cars0.len() ==> (#[trigger] self.cars0[i]).0 < CYCLE
        &&& forall|i: int, j: int|
            0 <= i < j < self.cars0.len() ==> (#[trigger] self.cars0[i]).0 < (
            #[trigger] self.cars0[j]).0
    }

    /// The road that `from_seed` builds.
    pub open spec fn spec_from_seed(seed: u32, y: i32, inverted: bool) -> RoadModel {
        RoadModel {
            cars0: spec_comb(seed as u64, spec_half_width(seed), 1, 0),
            y,
            half_width: spec_half_width(seed),
            inverted,
        }
    }

    /// The distance of a car from the left edge of the window, in cycle
    /// units; negative for a car to the left of it.
    pub open spec fn spec_x_over(self, car: Car) -> int {
        let pos: int = if self.inverted {
            CYCLE - car.0
        } else {
            car.0 as int
        };
        pos - (CYCLE / 2 - self.half_width)
    }

    /// The column of a car on the screen, in thousandths of a tile, rounded
    /// down: the window maps onto the width of the screen.
    pub open spec fn spec_realise_car(self, car: Car) -> int {
        (self.spec_x_over(car) * (SCREEN_SIZE * 1000)) / (2 * self.half_width)
    }

    /// The car as a client draws it.
    pub open spec fn spec_transform_car(self, car: Car) -> CarPublic {
        CarPublic(self.spec_realise_car(car) as i32, self.y, self.inverted)
    }

    /// Of the first `n` cars, driven to `time_us`, those that show on the
    /// screen, in the order of the comb.
    pub open spec fn spec_onscreen_upto(self, time_us: u32, n: int) -> Seq<Car>
        decreases n,
    {
        if n <= 0 {
            Seq::empty()
        } else {
            let before = self.spec_onscreen_upto(time_us, n - 1);
            let driven = self.cars0[n - 1].spec_drive(time_us);
            if spec_on_screen(self.spec_realise_car(driven)) {
                before.push(driven)
            } else {
                before
            }
        }
    }

    /// The cars that show on the screen at `time_us`.
    pub open spec fn spec_cars_onscreen(self, time_us: u32) -> Seq<Car> {
        self.spec_onscreen_upto(time_us, self.cars0.len() as int)
    }

    /// Every car that `spec_onscreen_upto` lists lies on the cycle.
    pub proof fn lemma_onscreen_on_cycle(self, time_us: u32, n: int)
        ensures
            forall|k: int|
                0 <= k < self.spec_onscreen_upto(time_us, n).len() ==> (
                #[trigger] self.spec_onscreen_upto(time_us, n)[k]).0 < CYCLE,
            self.spec_onscreen_upto(time_us, n).len() <= if n < 0 {
                0
            } else {
                n
            },
        decreases n,
    {
        if n > 0 {
            self.lemma_onscreen_on_cycle(time_us, n - 1);
        }
    }

    /// The cars on the screen as a client draws them.
    pub open spec fn spec_cars_public(self, time_us: u32) -> Seq<CarPublic> {
        let shown = self.spec_cars_onscreen(time_us);
        Seq::new(shown.len(), |k: int| self.spec_transform_car(shown[k]))
    }

    /// Whether a car at this place hits a frog in column `frog_x`: the two
    /// columns are less than four thirds of a tile apart.
    pub open spec fn spec_car_hits(self, car: Car, frog_x: i32) -> bool {
        3 * abs_diff(
            frog_x * (2 * self.half_width),
            self.spec_x_over(car) * (SCREEN_SIZE as int),
        ) < 8 * self.half_width
    }

    /// Whether one of the first `n` cars hits the frog at `time_us`.
    pub open spec fn spec_hit_among(self, time_us: u32, frog_x: i32, n: int) -> bool {
        exists|k: int|
            0 <= k < n && k < self.cars0.len() && self.spec_car_hits(
                (#[trigger] self.cars0[k]).spec_drive(time_us),
                frog_x,
            )
    }

    /// Whether a car of this road hits a frog on the tile `frog_pos` at `time_us`.
    pub open spec fn spec_collides_car(self, time_us: u32, frog_pos: CoordPos) -> bool {
        frog_pos.y == self.y && self.spec_hit_among(
            time_us,
            frog_pos.x,
            self.cars0.len() as int,
        )
    }
}

/// The least and the largest distance between two neighbours of the comb
/// of a road whose window has the half width `half_width`.
pub fn spacing_bounds(half_width: u32) -> (r: (u32, u32))
    ensures
        r.0 == min_spacing(half_width),
        r.1 == max_spacing(half_width),
{
    (((half_width as u64 * 3) / 16) as u32, ((half_width as u64 * 12) / 5) as u32)
}

impl Road {
    /// Tests `wf`. Every road that `from_seed` has built passes.
    pub fn is_well_formed(&self) -> (r: bool)
        ensures
            r == self@.wf(),
    {
        if self.half_width < HALF_WIDTH_MIN || self.half_width > HALF_WIDTH_MAX {
            return false;
        }
        let mut i: usize = 0;
        while i < self.cars0.len()
            invariant
                i <= self.cars0.len(),
                HALF_WIDTH_MIN <= self.half_width <= HALF_WIDTH_MAX,
                forall|k: int| 0 <= k < i ==> (#[trigger] self.cars0@[k]).0 < CYCLE,
                forall|k: int, l: int|
                    0 <= k < l < i ==> (#[trigger] self.cars0@[k]).0 < (
                    #[trigger] self.cars0@[l]).0,
            decreases self.cars0.len() - i,
        {
            if self.cars0[i].0 >= CYCLE {
                assert(!(self@.cars0[i as int].0 < CYCLE));
                return false;
            }
            if i > 0 && self.cars0[i - 1].0 >= self.cars0[i].0 {
                assert(!(self@.cars0[i - 1].0 < self@.cars0[i as int].0));
                return false;
            }
            assert forall|k: int, l: int| 0 <= k < l < i + 1 implies (
            #[trigger] self.cars0@[k]).0 < (#[trigger] self.cars0@[l]).0 by {
                if l == i && k < i - 1 {
                    assert(self.cars0@[k].0 < self.cars0@[i - 1].0);
                }
            }
            i = i + 1;
        }
        true
    }

    /// Builds the road of a row from its seed.
    pub fn from_seed(seed: u32, y: i32, inverted: bool) -> (r: Self)
        ensures
            r@ == RoadModel::spec_from_seed(seed, y, inverted),
            r@.wf(),
    {
        let rng = FroggyRng::new(seed as u64);
        let w = rng.next_range(0, HALF_WIDTH_MIN, HALF_WIDTH_MAX);
        let (lo, hi) = spacing_bounds(w);
        let mut cars0: Vec<Car> = Vec::new();
        let mut cur: u32 = 0;
        let mut i: i32 = 1;
        assert(cars0@ + spec_comb(seed as u64, w, 1, 0) =~= spec_comb(seed as u64, w, 1, 0));
        loop
            invariant_except_break
                cars0@ + spec_comb(seed as u64, w, i as int, cur as int) == spec_comb(
                    seed as u64,
                    w,
                    1,
                    0,
                ),
            invariant
                rng.seed == seed as u64,
                HALF_WIDTH_MIN <= w <= HALF_WIDTH_MAX,
                lo == min_spacing(w),
                hi == max_spacing(w),
                300_000 <= lo <= hi,
                cur < CYCLE,
                1 <= i,
                (i - 1) * 300_000 <= cur,
                forall|k: int| 0 <= k < cars0@.len() ==> 0 < (#[trigger] cars0@[k]).0 <= cur,
                forall|k: int, l: int|
                    0 <= k < l < cars0@.len() ==> (#[trigger] cars0@[k]).0 < (
                    #[trigger] cars0@[l]).0,
            ensures
                cars0@ == spec_comb(seed as u64, w, 1, 0),
            decreases CYCLE - cur,
        {
            let step = rng.next_range(i, lo, hi);
            let next: u64 = cur as u64 + step as u64;
            if next >= CYCLE as u64 {
                assert(spec_comb(seed as u64, w, i as int, cur as int) =~= Seq::<Car>::empty());
                assert(cars0@ + Seq::<Car>::empty() =~= cars0@);
                break;
            }
            let ghost before = cars0@;
            cars0.push(Car(next as u32));
            assert(before + spec_comb(seed as u64, w, i as int, cur as int) =~= cars0@
                + spec_comb(seed as u64, w, i + 1, next as int));
            cur = next as u32;
            i = i + 1;
        }
        Road { cars0, y, half_width: w, inverted }
    }

    fn x_over(&self, car: &Car) -> (r: i64)
        requires
            self@.wf(),
            car.0 < CYCLE,
        ensures
            r == self@.spec_x_over(*car),
            -2_400_000 <= r <= 6_400_000,
    {
        let pos: i64 = if self.inverted {
            CYCLE as i64 - car.0 as i64
        } else {
            car.0 as i64
        };
        pos - ((CYCLE / 2) as i64 - self.half_width as i64)
    }

    /// The column of a car on the screen, in thousandths of a tile.
    pub fn realise_car(&self, car: &Car) -> (r: i32)
        requires
            self@.wf(),
            car.0 < CYCLE,
        ensures
            r == self@.spec_realise_car(*car),
    {
        let over = self.x_over(car);
        let num: i64 = over * 20_000;
        let den: i64 = 2 * self.half_width as i64;
        let q = div_floor(num, den);
        proof {
            assert(-15_001 <= q <= 40_001) by (nonlinear_arith)
                requires
                    q == num / den,
                    3_200_000 <= den <= 4_000_000,
                    -48_000_000_000 <= num <= 128_000_000_000,
            ;
        }
        q as i32
    }

    pub fn transform_car(&self, car: &Car) -> (r: CarPublic)
        requires
            self@.wf(),
            car.0 < CYCLE,
        ensures
            r == self@.spec_transform_car(*car),
    {
        CarPublic(self.realise_car(car), self.y, self.inverted)
    }

    pub fn get_cars_onscreen(&self, time_us: u32) -> (r: Vec<Car>)
        requires
            self@.wf(),
        ensures
            r@ == self@.spec_cars_onscreen(time_us),
            forall|k: int| 0 <= k < r@.len() ==> (#[trigger] r@[k]).0 < CYCLE,
    {
        let mut cars: Vec<Car> = Vec::new();
        let mut i: usize = 0;
        while i < self.cars0.len()
            invariant
                self@.wf(),
                i <= self.cars0.len(),
                cars@ == self@.spec_onscreen_upto(time_us, i as int),
            decreases self.cars0.len() - i,
        {
            let driven = self.cars0[i].drive(time_us);
            let x = self.realise_car(&driven);
            if -3000 < x && x < 23_000 {
                cars.push(driven);
            }
            i = i + 1;
        }
        proof {
            self@.lemma_onscreen_on_cycle(time_us, self.cars0@.len() as int);
        }
        cars
    }

    pub fn get_cars_public(&self, time_us: u32) -> (r: Vec<CarPublic>)
        requires
            self@.wf(),
        ensures
            r@ == self@.spec_cars_public(time_us),
    {
        let shown = self.get_cars_onscreen(time_us);
        let mut out: Vec<CarPublic> = Vec::new();
        let mut i: usize = 0;
        while i < shown.len()
            invariant
                self@.wf(),
                i <= shown.len(),
                forall|k: int| 0 <= k < shown@.len() ==> (#[trigger] shown@[k]).0 < CYCLE,
                out@.len() == i,
                forall|k: int|
                    0 <= k < i ==> out@[k] == self@.spec_transform_car(#[trigger] shown@[k]),
            decreases shown.len() - i,
        {
            out.push(self.transform_car(&shown[i]));
            i = i + 1;
        }
        assert(out@ =~= self@.spec_cars_public(time_us));
        out
    }

    fn car_hits(&self, car: &Car, frog_x: i32) -> (r: bool)
        requires
            self@.wf(),
            car.0 < CYCLE,
        ensures
            r == self@.spec_car_hits(*car, frog_x),
    {
        let over = self.x_over(car);
        let span: i64 = 2 * self.half_width as i64;
        assert(-9_000_000_000_000_000 <= frog_x * span <= 9_000_000_000_000_000)
            by (nonlinear_arith)
            requires
                0 < span <= 4_000_000,
                -2_147_483_648 <= frog_x <= 2_147_483_647,
        ;
        let a: i64 = frog_x as i64 * span;
        let b: i64 = over * 20;
        let d: i64 = if a >= b {
            a - b
        } else {
            b - a
        };
        3 * d < 8 * self.half_width as i64
    }

    pub fn collides_car(&self, time_us: u32, frog_pos: CoordPos) -> (r: bool)
        requires
            self@.wf(),
        ensures
            r == self@.spec_collides_car(time_us, frog_pos),
    {
        if frog_pos.y != self.y {
            return false;
        }
        let mut i: usize = 0;
        while i < self.cars0.len()
            invariant
                self@.wf(),
                i <= self.cars0.len(),
                frog_pos.y == self.y,
                !self@.spec_hit_among(time_us, frog_pos.x, i as int),
            decreases self.cars0.len() - i,
        {
            let driven = self.cars0[i].drive(time_us);
            if self.car_hits(&driven, frog_pos.x) {
                proof {
                    let k = i as int;
                    assert(0 <= k < self@.cars0.len() && self@.spec_car_hits(
                        self@.cars0[k].spec_drive(time_us),
                        frog_pos.x,
                    ));
                    assert(self@.spec_hit_among(time_us, frog_pos.x, self.cars0@.len() as int));
                }
                return true;
            }
            i = i + 1;
        }
        false
    }
}

/// Driving keeps cars apart: two cars at different places of the cycle are
/// at different places after any time.
pub proof fn lemma_drive_injective(a: Car, b: Car, time_us: u32)
    requires
        a.0 < CYCLE,
        b.0 < CYCLE,
        a != b,
    ensures
        a.spec_drive(time_us) != b.spec_drive(time_us),
{
    let x = a.0 + time_us;
    let y = b.0 + time_us;
    vstd::arithmetic::div_mod::lemma_fundamental_div_mod(x, CYCLE as int);
    vstd::arithmetic::div_mod::lemma_fundamental_div_mod(y, CYCLE as int);
    if x % (CYCLE as int) == y % (CYCLE as int) {
        let qx = x / (CYCLE as int);
        let qy = y / (CYCLE as int);
        assert(x - y == (CYCLE as int) * (qx - qy)) by (nonlinear_arith)
            requires
                x == (CYCLE as int) * qx + x % (CYCLE as int),
                y == (CYCLE as int) * qy + y % (CYCLE as int),
                x % (CYCLE as int) == y % (CYCLE as int),
        ;
        assert(qx == qy) by (nonlinear_arith)
            requires
                x - y == (CYCLE as int) * (qx - qy),
                -(CYCLE as int) < x - y < CYCLE as int,
        ;
    }
}

/// Driving reaches every place: whatever the time, each place of the cycle
/// is where the car from exactly one place of the cycle is. With
/// `lemma_drive_injective`, driving permutes the places of the cycle.
pub proof fn lemma_drive_onto(place: Car, time_us: u32) -> (from: Car)
    requires
        place.0 < CYCLE,
    ensures
        from.0 < CYCLE,
        from.spec_drive(time_us) == place,
{
    let r = time_us % CYCLE;
    let from = if place.0 >= r {
        Car((place.0 - r) as u32)
    } else {
        Car((place.0 + CYCLE - r) as u32)
    };
    let q = time_us as int / CYCLE as int;
    vstd::arithmetic::div_mod::lemma_fundamental_div_mod(time_us as int, CYCLE as int);
    if place.0 >= r {
        vstd::arithmetic::div_mod::lemma_fundamental_div_mod_converse(
            from.0 + time_us,
            CYCLE as int,
            q,
            place.0 as int,
        );
    } else {
        vstd::arithmetic::div_mod::lemma_fundamental_div_mod_converse(
            from.0 + time_us,
            CYCLE as int,
            q + 1,
            place.0 as int,
        );
    }
    from
}

/// A car that has not driven stands where the comb put it.
pub proof fn lemma_drive_zero(a: Car)
    requires
        a.0 < CYCLE,
    ensures
        a.spec_drive(0) == a,
{
}

/// Times add up: driving for `s` and then for `t` microseconds is driving
/// for `s + t`.
pub proof fn lemma_drive_adds(a: Car, s: u32, t: u32)
    requires
        s + t <= u32::MAX,
    ensures
        a.spec_drive(s).spec_drive(t) == a.spec_drive((s + t) as u32),
{
    vstd::arithmetic::div_mod::lemma_add_mod_noop_right(
        t as int,
        a.0 + s,
        CYCLE as int,
    );
    vstd::arithmetic::div_mod::lemma_add_mod_noop(a.0 + s, t as int, CYCLE as int);
    assert(((a.0 + s) % (CYCLE as int) + t) % (CYCLE as int) == (a.0 + s + t) % (CYCLE as int))
        by {
        vstd::arithmetic::div_mod::lemma_add_mod_noop_right(t as int, a.0 + s, CYCLE as int);
        assert(t + (a.0 + s) == a.0 + s + t);
        assert(t + (a.0 + s) % (CYCLE as int) == (a.0 + s) % (CYCLE as int) + t);
    }
}

/// No two cars of a road are ever at one place: at every time the cars of
/// the comb stand at as many places as there are cars.
pub proof fn lemma_cars_never_meet(road: RoadModel, time_us: u32, i: int, j: int)
    requires
        road.wf(),
        0 <= i < road.cars0.len(),
        0 <= j < road.cars0.len(),
        i != j,
    ensures
        road.cars0[i].spec_drive(time_us) != road.cars0[j].spec_drive(time_us),
{
    if i < j {
        assert(road.cars0[i].0 < road.cars0[j].0);
    } else {
        assert(road.cars0[j].0 < road.cars0[i].0);
    }
    lemma_drive_injective(road.cars0[i], road.cars0[j], time_us);
}

} // verus!
