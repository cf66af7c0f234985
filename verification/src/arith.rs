//! Rust's truncating integer division, with a contract.

use vstd::prelude::*;

verus! {

/// The absolute value of an integer.
pub open spec fn abs(a: int) -> int {
    if a >= 0 {
        a
    } else {
        -a
    }
}

/// The quotient that Rust's `/` computes on signed integers: rounded toward zero.
pub open spec fn trunc_div(a: int, b: int) -> int
    recommends
        b != 0,
{
    if (a >= 0) == (b >= 0) {
        abs(a) / abs(b)
    } else {
        -(abs(a) / abs(b))
    }
}

/// The remainder that Rust's `%` computes on signed integers: it has the sign of `a`.
pub open spec fn trunc_rem(a: int, b: int) -> int
    recommends
        b != 0,
{
    a - b * trunc_div(a, b)
}

pub proof fn lemma_trunc_rem_is_signed_mod(a: int, b: int)
    requires
        b != 0,
    ensures
        trunc_rem(a, b) == if a >= 0 { abs(a) % abs(b) } else { -(abs(a) % abs(b)) },
        abs(a) / abs(b) <= abs(a),
{
    let ua = abs(a);
    let ub = abs(b);
    let uq = ua / ub;
    let ur = ua % ub;
    assert(ua == ub * uq + ur && 0 <= ur < ub && uq >= 0) by (nonlinear_arith)
        requires ub > 0, ua >= 0, uq == ua / ub, ur == ua % ub;
    assert(uq <= ua) by (nonlinear_arith)
        requires ua == ub * uq + ur, ub >= 1, ur >= 0, uq >= 0;
    if a >= 0 && b >= 0 {
        assert(trunc_div(a, b) == uq);
    } else if a >= 0 && b < 0 {
        assert(trunc_div(a, b) == -uq);
        assert(b * (-uq) == ub * uq) by (nonlinear_arith)
            requires ub == -b;
    } else if a < 0 && b >= 0 {
        assert(trunc_div(a, b) == -uq);
        assert(b * (-uq) == -(ub * uq)) by (nonlinear_arith)
            requires ub == b;
    } else {
        assert(trunc_div(a, b) == uq);
        assert(b * uq == -(ub * uq)) by (nonlinear_arith)
            requires ub == -b;
    }
}

/// `a / b` and `a % b` on `i64`, as Rust computes them.
pub fn div_rem_i64(a: i64, b: i64) -> (r: (i64, i64))
    requires
        b != 0,
        !(a == i64::MIN && b == -1),
    ensures
        r.0 == trunc_div(a as int, b as int),
        r.1 == trunc_rem(a as int, b as int),
{
    let ua: u64 = if a >= 0 {
        a as u64
    } else if a == i64::MIN {
        0x8000_0000_0000_0000u64
    } else {
        (-a) as u64
    };
    let ub: u64 = if b >= 0 {
        b as u64
    } else if b == i64::MIN {
        0x8000_0000_0000_0000u64
    } else {
        (-b) as u64
    };
    assert(ua as int == abs(a as int));
    assert(ub as int == abs(b as int));
    let uq: u64 = ua / ub;
    let ur: u64 = ua % ub;
    proof {
        lemma_trunc_rem_is_signed_mod(a as int, b as int);
        assert(ur < ub);
    }
    let q: i64 = if (a >= 0) == (b >= 0) {
        proof {
            if a == i64::MIN {
                assert(uq <= ua / 2) by (nonlinear_arith)
                    requires
                        uq as int == (ua as int) / (ub as int),
                        ub >= 2,
                ;
            }
        }
        uq as i64
    } else if uq == 0x8000_0000_0000_0000u64 {
        i64::MIN
    } else {
        0i64 - (uq as i64)
    };
    let m: i64 = if a >= 0 {
        ur as i64
    } else {
        0i64 - (ur as i64)
    };
    (q, m)
}

/// The quotient and remainder of a truncating division are no larger in size than the dividend.
pub proof fn lemma_trunc_bounds(a: int, b: int)
    requires
        b != 0,
    ensures
        abs(trunc_div(a, b)) <= abs(a),
        abs(trunc_rem(a, b)) <= abs(a),
        abs(trunc_rem(a, b)) < abs(b),
        abs(trunc_div(a, b)) == abs(a) / abs(b),
{
    lemma_trunc_rem_is_signed_mod(a, b);
    let ua = abs(a);
    let ub = abs(b);
    assert(ua % ub <= ua && ua % ub < ub) by (nonlinear_arith)
        requires ua >= 0, ub > 0;
}

/// Rust's division rounds toward zero: the quotient and remainder rebuild the
/// dividend, the remainder is smaller than the divisor in size, and it is never
/// of the opposite sign to the dividend. These facts fix both results.
pub proof fn lemma_trunc_division_law(a: int, b: int)
    requires
        b != 0,
    ensures
        b * trunc_div(a, b) + trunc_rem(a, b) == a,
        abs(trunc_rem(a, b)) < abs(b),
        a >= 0 ==> trunc_rem(a, b) >= 0,
        a <= 0 ==> trunc_rem(a, b) <= 0,
        a >= 0 && b > 0 ==> trunc_div(a, b) == a / b && trunc_rem(a, b) == a % b,
{
    lemma_trunc_bounds(a, b);
    lemma_trunc_rem_is_signed_mod(a, b);
    let ua = abs(a);
    let ub = abs(b);
    assert(0 <= ua % ub) by (nonlinear_arith)
        requires ub > 0;
}

} // verus!
