//! Integer helpers shared by the map and the clock estimate.

use vstd::prelude::*;

verus! {

/// The quotient of `a` by a positive `b`, rounded towards minus infinity.
pub fn div_floor(a: i64, b: i64) -> (q: i64)
    requires
        b > 0,
        a > i64::MIN,
    ensures
        q == a as int / b as int,
{
    if a >= 0 {
        a / b
    } else {
        let m: i64 = -a;
        let up: i64 = m / b;
        let rem: i64 = m % b;
        proof {
            vstd::arithmetic::div_mod::lemma_fundamental_div_mod(m as int, b as int);
            assert(b * up == up * b) by (nonlinear_arith);
            assert(rem != 0 ==> up < m) by (nonlinear_arith)
                requires
                    m == up * b + rem,
                    b > 0,
                    up >= 0,
                    rem >= 0,
            ;
        }
        let c: i64 = if rem == 0 {
            up
        } else {
            up + 1
        };
        proof {
            let r: int = if rem == 0 {
                0
            } else {
                b - rem
            };
            assert(a == (-c) * b + r) by (nonlinear_arith)
                requires
                    m == up * b + rem,
                    a == -m,
                    c == if rem == 0 {
                        up as int
                    } else {
                        up + 1
                    },
                    r == if rem == 0 {
                        0
                    } else {
                        b - rem
                    },
            ;
            vstd::arithmetic::div_mod::lemma_fundamental_div_mod_converse(
                a as int,
                b as int,
                -(c as int),
                r,
            );
        }
        -c
    }
}

/// The distance between two numbers.
pub open spec fn abs_diff(a: int, b: int) -> int {
    if a >= b {
        a - b
    } else {
        b - a
    }
}

} // verus!
