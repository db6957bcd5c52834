//! Fixed-point scalars.
//!
//! A scalar is an `i64` counting micro-units: `SCALE` of them make one unit
//! (one metre, one radian, one second, one full stick deflection). Products
//! of two scalars are rescaled by `SCALE`, truncating toward zero, exactly as
//! `fp_mul_spec` says.

use vstd::prelude::*;
use vstd::arithmetic::div_mod::{
    lemma_fundamental_div_mod, lemma_mod_division_less_than_divisor, lemma_mod_multiples_vanish,
    lemma_small_mod,
};
use vstd::arithmetic::mul::lemma_mul_upper_bound;

verus! {

/// Micro-units in one unit.
pub const SCALE: i64 = 1_000_000;

/// One full turn (two pi radians) in micro-radians, truncated.
pub const TURN: i64 = 6_283_185;

pub open spec fn abs_val(a: int) -> int {
    if a < 0 {
        -a
    } else {
        a
    }
}

/// The fixed-point product: `a * b / SCALE`, truncated toward zero.
pub open spec fn fp_mul_spec(a: int, b: int) -> int {
    let m = (abs_val(a) * abs_val(b)) / (SCALE as int);
    if (a < 0) != (b < 0) {
        -m
    } else {
        m
    }
}

/// `v` forced into `[lo, hi]`.
pub open spec fn clamp_spec(v: int, lo: int, hi: int) -> int {
    if v < lo {
        lo
    } else if v > hi {
        hi
    } else {
        v
    }
}

/// `a` reduced to `[0, TURN)`: the Euclidean remainder of `a` by `TURN`.
pub open spec fn wrap_spec(a: int) -> int {
    a % (TURN as int)
}

/// The fixed-point product of two scalars, rescaled and truncated toward zero.
pub fn fp_mul(a: i64, b: i64) -> (r: i64)
    requires
        i64::MIN < a,
        i64::MIN < b,
        abs_val(a as int) * abs_val(b as int) <= u64::MAX,
    ensures
        r as int == fp_mul_spec(a as int, b as int),
        abs_val(r as int) == (abs_val(a as int) * abs_val(b as int)) / (SCALE as int),
{
    let neg: bool = (a < 0) != (b < 0);
    let ma: u64 = if a < 0 {
        (-a) as u64
    } else {
        a as u64
    };
    let mb: u64 = if b < 0 {
        (-b) as u64
    } else {
        b as u64
    };
    proof {
        assert(ma == abs_val(a as int));
        assert(mb == abs_val(b as int));
    }
    let p: u64 = ma * mb;
    let q: u64 = p / (SCALE as u64);
    proof {
        assert(q <= (u64::MAX as int) / (SCALE as int)) by {
            vstd::arithmetic::div_mod::lemma_div_is_ordered(
                p as int,
                u64::MAX as int,
                SCALE as int,
            );
        }
        assert((u64::MAX as int) / (SCALE as int) < i64::MAX);
    }
    if neg {
        -(q as i64)
    } else {
        q as i64
    }
}

/// `v` forced into `[lo, hi]`.
pub fn clamp_i64(v: i64, lo: i64, hi: i64) -> (r: i64)
    requires
        lo <= hi,
    ensures
        r as int == clamp_spec(v as int, lo as int, hi as int),
        lo <= r <= hi,
{
    if v < lo {
        lo
    } else if v > hi {
        hi
    } else {
        v
    }
}

/// `a` reduced to `[0, TURN)`, keeping its value modulo one full turn.
pub fn wrap_angle(a: i64) -> (r: i64)
    requires
        i64::MIN < a,
    ensures
        r as int == wrap_spec(a as int),
        0 <= r < TURN,
{
    let turn: u64 = TURN as u64;
    if a >= 0 {
        let m: u64 = (a as u64) % turn;
        proof {
            lemma_mod_division_less_than_divisor(a as int, TURN as int);
        }
        m as i64
    } else {
        let n: u64 = (-a) as u64;
        let m: u64 = n % turn;
        proof {
            lemma_fundamental_div_mod(n as int, TURN as int);
            lemma_mod_division_less_than_divisor(n as int, TURN as int);
        }
        if m == 0 {
            proof {
                // a == -(n/TURN) * TURN, a multiple of TURN.
                lemma_mod_multiples_vanish(-(n as int / TURN as int), 0, TURN as int);
                lemma_small_mod(0nat, TURN as nat);
            }
            0
        } else {
            proof {
                // a == (-(n/TURN) - 1) * TURN + (TURN - m), with 0 <= TURN - m < TURN.
                lemma_mod_multiples_vanish(
                    -(n as int / TURN as int) - 1,
                    TURN as int - m as int,
                    TURN as int,
                );
                lemma_small_mod((TURN - m) as nat, TURN as nat);
            }
            (turn - m) as i64
        }
    }
}

/// Bounds the magnitude of a fixed-point product from bounds on the factors.
pub proof fn lemma_fp_mul_bound(a: int, b: int, bound_a: int, bound_b: int)
    requires
        abs_val(a) <= bound_a,
        abs_val(b) <= bound_b,
        0 <= bound_a,
        0 <= bound_b,
    ensures
        abs_val(a) * abs_val(b) <= bound_a * bound_b,
        abs_val(fp_mul_spec(a, b)) <= (bound_a * bound_b) / (SCALE as int),
{
    lemma_mul_upper_bound(abs_val(a), bound_a, abs_val(b), bound_b);
    vstd::arithmetic::div_mod::lemma_div_is_ordered(
        abs_val(a) * abs_val(b),
        bound_a * bound_b,
        SCALE as int,
    );
    vstd::arithmetic::div_mod::lemma_div_pos_is_pos(abs_val(a) * abs_val(b), SCALE as int);
}

} // verus!
