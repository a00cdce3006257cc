//! The clock of the server as a client estimates it: a four-stamp exchange,
//! smoothed over many exchanges. All arithmetic is on integers; a smoothing
//! factor is a fraction.

use vstd::prelude::*;
use crate::interop::TimeRequestEnd;
use crate::math::div_floor;

verus! {

/// How many frames lie between two time requests of a client.
pub const TIME_REQUEST_INTERVAL: u32 = 13;

/// The smoothing factor of the latency, as a fraction over
/// `TIME_REQUEST_INTERVAL`.
pub const LATENCY_LERP_K: u16 = 50;

/// The smoothing factor of the start of the server, as a fraction over
/// `TIME_REQUEST_INTERVAL`, for both directions.
pub const SERVER_START_LERP_K: u16 = 500;

/// A clock estimate: the one-way latency, and when the server started on
/// the clock of the client, both in microseconds.
#[derive(Clone, Copy, Debug, PartialEq, Eq, Structural)]
pub struct ClockEstimate {
    pub estimated_latency_us: i32,
    pub server_start_us: i32,
}

/// The smoothed value `(x0 * (k - 1) + x) / k` for the factor
/// `k = k_num / k_den`, rounded down.
pub open spec fn spec_dan_lerp(x0: int, x: int, k_num: int, k_den: int) -> int {
    (x0 * (k_num - k_den) + x * k_den) / k_num
}

/// `spec_dan_lerp` with the factor `k_up` where the new value is larger than
/// the old one, and with `k_down` else.
pub open spec fn spec_dan_lerp_directional(
    x0: int,
    x: int,
    k_up: int,
    k_down: int,
    k_den: int,
) -> int {
    if x > x0 {
        spec_dan_lerp(x0, x, k_up, k_den)
    } else {
        spec_dan_lerp(x0, x, k_down, k_den)
    }
}

/// The new value itself where it is more than `snap_thresh` from the old
/// one; the smoothed value else.
pub open spec fn spec_dan_lerp_snap_thresh(
    x0: int,
    x: int,
    k_num: int,
    k_den: int,
    snap_thresh: int,
) -> int {
    if x0 - x > snap_thresh || x - x0 > snap_thresh {
        x
    } else {
        spec_dan_lerp(x0, x, k_num, k_den)
    }
}

/// A number cut to the range of `i32`.
pub open spec fn spec_clamp_i32(x: int) -> i32 {
    if x > i32::MAX {
        i32::MAX
    } else if x < i32::MIN {
        i32::MIN
    } else {
        x as i32
    }
}

/// Half the time that the exchange spent on the wire, rounded down: the
/// round trip less the time that the server held the request.
pub open spec fn spec_one_way_delay(t: TimeRequestEnd) -> int {
    ((t.client_receive_time_us - t.client_send_time_us) - (t.server_send_time_us
        - t.server_receive_time_us)) / 2
}

/// Smooths `x0` towards `x` with the factor `k_num / k_den`.
pub fn dan_lerp(x0: i32, x: i32, k_num: u16, k_den: u16) -> (r: i64)
    requires
        k_num > 0,
    ensures
        r == spec_dan_lerp(x0 as int, x as int, k_num as int, k_den as int),
{
    let w0: i64 = k_num as i64 - k_den as i64;
    assert(-140_737_488_355_328 <= x0 * w0 <= 140_737_488_355_328) by (nonlinear_arith)
        requires
            -65_535 <= w0 <= 65_535,
            -2_147_483_648 <= x0 <= 2_147_483_647,
    ;
    assert(-140_737_488_355_328 <= x * k_den <= 140_737_488_355_328) by (nonlinear_arith)
        requires
            0 <= k_den <= 65_535,
            -2_147_483_648 <= x <= 2_147_483_647,
    ;
    let num: i64 = x0 as i64 * w0 + x as i64 * k_den as i64;
    div_floor(num, k_num as i64)
}

/// Smooths with `k_up` upwards and with `k_down` downwards.
pub fn dan_lerp_directional(x0: i32, x: i32, k_up: u16, k_down: u16, k_den: u16) -> (r: i64)
    requires
        k_up > 0,
        k_down > 0,
    ensures
        r == spec_dan_lerp_directional(
            x0 as int,
            x as int,
            k_up as int,
            k_down as int,
            k_den as int,
        ),
{
    if x > x0 {
        dan_lerp(x0, x, k_up, k_den)
    } else {
        dan_lerp(x0, x, k_down, k_den)
    }
}

/// Smooths, but takes a value that is far off at once.
pub fn dan_lerp_snap_thresh(x0: i32, x: i32, k_num: u16, k_den: u16, snap_thresh: u32) -> (r: i64)
    requires
        k_num > 0,
    ensures
        r == spec_dan_lerp_snap_thresh(
            x0 as int,
            x as int,
            k_num as int,
            k_den as int,
            snap_thresh as int,
        ),
{
    let d: i64 = x0 as i64 - x as i64;
    if d > snap_thresh as i64 || -d > snap_thresh as i64 {
        x as i64
    } else {
        dan_lerp(x0, x, k_num, k_den)
    }
}

fn clamp_i32(x: i64) -> (r: i32)
    ensures
        r == spec_clamp_i32(x as int),
{
    if x > i32::MAX as i64 {
        i32::MAX
    } else if x < i32::MIN as i64 {
        i32::MIN
    } else {
        x as i32
    }
}

/// With a factor of at least one, smoothing moves towards the new value and
/// never beyond it: the result lies between the old value and the new one.
pub proof fn lemma_dan_lerp_between(x0: int, x: int, k_num: int, k_den: int)
    requires
        0 < k_den <= k_num,
    ensures
        x0 <= x ==> x0 <= spec_dan_lerp(x0, x, k_num, k_den) <= x,
        x <= x0 ==> x <= spec_dan_lerp(x0, x, k_num, k_den) <= x0,
{
    let num = x0 * (k_num - k_den) + x * k_den;
    let q = num / k_num;
    vstd::arithmetic::div_mod::lemma_fundamental_div_mod(num, k_num);
    vstd::arithmetic::div_mod::lemma_mod_bound(num, k_num);
    if x0 <= x {
        assert(x0 * k_num <= num <= x * k_num) by (nonlinear_arith)
            requires
                num == x0 * (k_num - k_den) + x * k_den,
                x0 <= x,
                0 < k_den <= k_num,
        ;
        assert(x0 <= q <= x) by (nonlinear_arith)
            requires
                x0 * k_num <= num <= x * k_num,
                num == k_num * q + num % k_num,
                0 <= num % k_num < k_num,
                k_num > 0,
        ;
    }
    if x <= x0 {
        assert(x * k_num <= num <= x0 * k_num) by (nonlinear_arith)
            requires
                num == x0 * (k_num - k_den) + x * k_den,
                x <= x0,
                0 < k_den <= k_num,
        ;
        assert(x <= q <= x0) by (nonlinear_arith)
            requires
                x * k_num <= num <= x0 * k_num,
                num == k_num * q + num % k_num,
                0 <= num % k_num < k_num,
                k_num > 0,
        ;
    }
}

/// Smoothing makes way: an estimate above the value it observes comes down
/// by at least one, and an estimate below it goes up by at least one as
/// long as it is `k` or more away. So under a steady observation the
/// estimates close in on it, from above all the way and from below to
/// within `k`.
pub proof fn lemma_dan_lerp_makes_way(x0: int, x: int, k_num: int, k_den: int)
    requires
        0 < k_den <= k_num,
    ensures
        x < x0 ==> spec_dan_lerp(x0, x, k_num, k_den) < x0,
        x > x0 && (x - x0) * k_den >= k_num ==> spec_dan_lerp(x0, x, k_num, k_den) > x0,
{
    let num = x0 * (k_num - k_den) + x * k_den;
    let q = num / k_num;
    vstd::arithmetic::div_mod::lemma_fundamental_div_mod(num, k_num);
    vstd::arithmetic::div_mod::lemma_mod_bound(num, k_num);
    assert(num == x0 * k_num + (x - x0) * k_den) by (nonlinear_arith)
        requires
            num == x0 * (k_num - k_den) + x * k_den,
    ;
    if x < x0 {
        assert((x - x0) * k_den < 0) by (nonlinear_arith)
            requires
                x < x0,
                k_den > 0,
        ;
        assert(q < x0) by (nonlinear_arith)
            requires
                num < x0 * k_num,
                num == k_num * q + num % k_num,
                0 <= num % k_num,
                k_num > 0,
        ;
    }
    if x > x0 && (x - x0) * k_den >= k_num {
        assert(q > x0) by (nonlinear_arith)
            requires
                num >= x0 * k_num + k_num,
                num == k_num * q + num % k_num,
                num % k_num < k_num,
                k_num > 0,
        ;
    }
}

/// An estimate that has reached the value it observes stays there.
pub proof fn lemma_dan_lerp_settled(x: int, k_num: int, k_den: int)
    requires
        0 < k_num,
    ensures
        spec_dan_lerp(x, x, k_num, k_den) == x,
{
    assert(x * (k_num - k_den) + x * k_den == x * k_num) by (nonlinear_arith);
    vstd::arithmetic::div_mod::lemma_div_multiples_vanish(x, k_num);
    assert(x * k_num == k_num * x) by (nonlinear_arith);
}

impl ClockEstimate {
    /// The first estimate of a client: the server tells its own time, and
    /// the latency is a guess.
    pub open spec fn spec_initial(server_time_us: u32, estimated_latency_us: u32) -> ClockEstimate {
        ClockEstimate {
            estimated_latency_us: spec_clamp_i32(estimated_latency_us as int),
            server_start_us: spec_clamp_i32(-(server_time_us + estimated_latency_us)),
        }
    }

    pub fn initial(server_time_us: u32, estimated_latency_us: u32) -> (r: Self)
        ensures
            r == Self::spec_initial(server_time_us, estimated_latency_us),
    {
        ClockEstimate {
            estimated_latency_us: clamp_i32(estimated_latency_us as i64),
            server_start_us: clamp_i32(-(server_time_us as i64 + estimated_latency_us as i64)),
        }
    }

    /// The estimate after one more exchange, read at `time_now_us` on the
    /// clock of the client. The latency is smoothed towards the one-way
    /// delay of the exchange. The server is taken to have been, at
    /// `time_now_us`, at its send time plus the latency; the start of the
    /// server that follows from this is smoothed into the estimate.
    pub open spec fn spec_process_time_info(self, t: TimeRequestEnd, time_now_us: u32)
        -> ClockEstimate {
        let latency = spec_clamp_i32(
            spec_dan_lerp(
                self.estimated_latency_us as int,
                spec_clamp_i32(spec_one_way_delay(t)) as int,
                LATENCY_LERP_K as int,
                TIME_REQUEST_INTERVAL as int,
            ),
        );
        let server_time = t.server_send_time_us + latency;
        let new_start = spec_clamp_i32(time_now_us - server_time);
        ClockEstimate {
            estimated_latency_us: latency,
            server_start_us: spec_clamp_i32(
                spec_dan_lerp_directional(
                    self.server_start_us as int,
                    new_start as int,
                    SERVER_START_LERP_K as int,
                    SERVER_START_LERP_K as int,
                    TIME_REQUEST_INTERVAL as int,
                ),
            ),
        }
    }

    pub fn process_time_info(&self, t: &TimeRequestEnd, time_now_us: u32) -> (r: ClockEstimate)
        ensures
            r == self.spec_process_time_info(*t, time_now_us),
    {
        let in_flight: i64 = t.client_receive_time_us as i64 - t.client_send_time_us as i64;
        let on_server: i64 = t.server_send_time_us as i64 - t.server_receive_time_us as i64;
        let ed = clamp_i32(div_floor(in_flight - on_server, 2));
        let latency = clamp_i32(
            dan_lerp(self.estimated_latency_us, ed, LATENCY_LERP_K, TIME_REQUEST_INTERVAL as u16),
        );
        let server_time: i64 = t.server_send_time_us as i64 + latency as i64;
        let new_start = clamp_i32(time_now_us as i64 - server_time);
        ClockEstimate {
            estimated_latency_us: latency,
            server_start_us: clamp_i32(
                dan_lerp_directional(
                    self.server_start_us,
                    new_start,
                    SERVER_START_LERP_K,
                    SERVER_START_LERP_K,
                    TIME_REQUEST_INTERVAL as u16,
                ),
            ),
        }
    }

    /// The time of the server at `time_now_us` on the clock of the client;
    /// 0 before the server started.
    pub open spec fn spec_server_time_us(self, time_now_us: u32) -> u32 {
        let t = time_now_us - self.server_start_us;
        if t < 0 {
            0
        } else if t > u32::MAX {
            u32::MAX
        } else {
            t as u32
        }
    }

    pub fn server_time_us(&self, time_now_us: u32) -> (r: u32)
        ensures
            r == self.spec_server_time_us(time_now_us),
    {
        let t: i64 = time_now_us as i64 - self.server_start_us as i64;
        if t < 0 {
            0
        } else if t > u32::MAX as i64 {
            u32::MAX
        } else {
            t as u32
        }
    }
}

} // verus!
