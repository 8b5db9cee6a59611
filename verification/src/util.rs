//! Arithmetic helpers: the greatest common divisor, and timers counted in
//! whole seconds.

use vstd::arithmetic::div_mod::{lemma_fundamental_div_mod, lemma_mod_multiples_basic};
use vstd::arithmetic::mul::{
    lemma_mul_is_associative, lemma_mul_is_commutative, lemma_mul_is_distributive_sub,
};
use vstd::prelude::*;

verus! {

/// The greatest common divisor of two numbers, by Euclid's rule; the
/// greatest common divisor of a number and zero is the number.
pub open spec fn spec_gcd(a: nat, b: nat) -> nat
    decreases b,
{
    if b == 0 {
        a
    } else {
        spec_gcd(b, a % b)
    }
}

/// `d` divides `n` without remainder.
pub open spec fn divides(d: nat, n: nat) -> bool {
    d > 0 && n % d == 0
}

/// A divisor of two numbers divides the remainder of one by the other.
pub proof fn lemma_divides_remainder(d: nat, a: nat, b: nat)
    requires
        divides(d, a),
        divides(d, b),
        b > 0,
    ensures
        divides(d, a % b),
{
    let x = a as int / d as int;
    let y = b as int / d as int;
    let q = a as int / b as int;
    lemma_fundamental_div_mod(a as int, d as int);
    lemma_fundamental_div_mod(b as int, d as int);
    lemma_fundamental_div_mod(a as int, b as int);
    assert(a == d * x);
    assert(b == d * y);
    assert(a % b == a - b * q);
    assert(b * q == d * (y * q)) by {
        lemma_mul_is_associative(d as int, y, q);
    }
    assert(a - b * q == d * (x - y * q)) by {
        lemma_mul_is_distributive_sub(d as int, x, y * q);
    }
    assert((d * (x - y * q)) % (d as int) == 0) by {
        lemma_mul_is_commutative(d as int, x - y * q);
        lemma_mod_multiples_basic(x - y * q, d as int);
    }
}

/// A divisor of `b` and of the remainder of `a` by `b` divides `a`.
pub proof fn lemma_divides_dividend(d: nat, a: nat, b: nat)
    requires
        divides(d, b),
        divides(d, a % b),
        b > 0,
    ensures
        divides(d, a),
{
    let r = (a % b) as int / d as int;
    let y = b as int / d as int;
    let q = a as int / b as int;
    lemma_fundamental_div_mod((a % b) as int, d as int);
    lemma_fundamental_div_mod(b as int, d as int);
    lemma_fundamental_div_mod(a as int, b as int);
    assert(b == d * y);
    assert(a % b == d * r);
    assert(b * q == d * (y * q)) by {
        lemma_mul_is_associative(d as int, y, q);
    }
    assert(a == d * (y * q + r)) by {
        vstd::arithmetic::mul::lemma_mul_is_distributive_add(d as int, y * q, r);
    }
    assert((d * (y * q + r)) % (d as int) == 0) by {
        lemma_mul_is_commutative(d as int, y * q + r);
        lemma_mod_multiples_basic(y * q + r, d as int);
    }
}

/// The greatest common divisor of two numbers, not both zero, divides
/// both.
pub proof fn lemma_gcd_divides(a: nat, b: nat)
    requires
        a > 0 || b > 0,
    ensures
        divides(spec_gcd(a, b), a),
        divides(spec_gcd(a, b), b),
    decreases b,
{
    if b == 0 {
        vstd::arithmetic::div_mod::lemma_mod_self_0(a as int);
    } else {
        lemma_gcd_divides(b, a % b);
        lemma_divides_dividend(spec_gcd(a, b), a, b);
    }
}

/// Every common divisor of two numbers divides their greatest common
/// divisor.
pub proof fn lemma_gcd_greatest(a: nat, b: nat, d: nat)
    requires
        divides(d, a),
        divides(d, b),
    ensures
        divides(d, spec_gcd(a, b)),
    decreases b,
{
    if b != 0 {
        lemma_divides_remainder(d, a, b);
        lemma_gcd_greatest(b, a % b, d);
    }
}

/// The greatest common divisor of two numbers.
pub fn gcd(u: usize, v: usize) -> (r: usize)
    ensures
        r == spec_gcd(u as nat, v as nat),
{
    let mut a: usize = u;
    let mut b: usize = v;
    while b != 0
        invariant
            spec_gcd(a as nat, b as nat) == spec_gcd(u as nat, v as nat),
        decreases b,
    {
        let rest: usize = a % b;
        a = b;
        b = rest;
    }
    a
}

/// A timer of `run_time` seconds has run out after `elapsed` seconds; a
/// timer of zero seconds never runs out.
pub open spec fn spec_timer_expired(elapsed: u64, run_time: usize) -> bool {
    run_time > 0 && elapsed >= run_time
}

/// Whether a timer of `run_time` seconds has run out after `elapsed`
/// seconds.
pub fn timer_expired(elapsed: u64, run_time: usize) -> (r: bool)
    ensures
        r == spec_timer_expired(elapsed, run_time),
{
    run_time > 0 && elapsed >= run_time as u64
}

} // verus!
