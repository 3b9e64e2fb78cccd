//! Field division for operand deduction: modular inverses by the extended
//! remainder chain, with the Bezout identity proved for the laws that rest
//! on it.
use vstd::prelude::*;

verus! {

use num_bigint::BigInt;
use crate::bigint_ops::{big_val, big_div, big_from_u64, big_is_zero, big_mod_floor, big_mul,
    big_sub};
use vstd::arithmetic::div_mod::{lemma_fundamental_div_mod, lemma_mod_multiples_vanish,
    lemma_mul_mod_noop_general, lemma_small_mod};

/// The extended remainder chain: the greatest common divisor of `a` and `b`
/// together with coefficients `x`, `y` such that `a * x + b * y` is that
/// divisor.
pub open spec fn egcd(a: int, b: int) -> (int, int, int)
    decreases b,
{
    if b <= 0 {
        (a, 1, 0)
    } else {
        let sub = egcd(b, a % b);
        (sub.0, sub.2, sub.1 - (a / b) * sub.2)
    }
}

/// The Bezout identity of the extended remainder chain.
pub proof fn lemma_egcd(a: int, b: int)
    requires
        b >= 0,
    ensures
        egcd(a, b).0 == a * egcd(a, b).1 + b * egcd(a, b).2,
    decreases b,
{
    if b > 0 {
        lemma_egcd(b, a % b);
        let sub = egcd(b, a % b);
        let q = a / b;
        let r = a % b;
        lemma_fundamental_div_mod(a, b);
        assert(sub.0 == a * sub.2 + b * (sub.1 - q * sub.2)) by (nonlinear_arith)
            requires
                sub.0 == b * sub.1 + r * sub.2,
                r == a - q * b,
        ;
        assert(egcd(a, b) == (sub.0, sub.2, sub.1 - q * sub.2));
    } else {
        assert(egcd(a, b) == (a, 1int, 0int));
        assert(a == a * 1int + b * 0int) by (nonlinear_arith);
    }
}

/// The inverse of `o` modulo `p`: the Bezout coefficient of `o mod p` and
/// `p`, reduced into the field. It inverts exactly the residues coprime
/// with `p`.
pub open spec fn field_inv(o: int, p: int) -> int {
    egcd(o % p, p).1 % p
}

/// A residue is invertible when it is coprime with the modulus.
pub open spec fn invertible(o: int, p: int) -> bool {
    egcd(o % p, p).0 == 1
}

/// Field division: multiplication by the modular inverse.
pub open spec fn field_div(d: int, o: int, p: int) -> int {
    (d * field_inv(o, p)) % p
}

/// An invertible residue times its inverse is one in the field.
pub proof fn lemma_field_inv(o: int, p: int)
    requires
        p > 1,
        invertible(o, p),
    ensures
        (o * field_inv(o, p)) % p == 1,
{
    let om = o % p;
    let x = egcd(om, p).1;
    let y = egcd(om, p).2;
    lemma_egcd(om, p);
    assert(om * x == p * (-y) + 1) by (nonlinear_arith)
        requires
            1 == om * x + p * y,
    ;
    lemma_mod_multiples_vanish(-y, 1, p);
    lemma_small_mod(1nat, p as nat);
    assert((om * x) % p == 1);
    lemma_mul_mod_noop_general(o, x, p);
    assert((o * x) % p == 1);
    lemma_mul_mod_noop_general(o, x % p, p);
    lemma_mul_mod_noop_general(o, x, p);
    assert((o * (x % p)) % p == (o * x) % p);
}

/// The quotient of a field division times the divisor gives back the
/// dividend, for a canonical dividend and an invertible divisor.
pub proof fn lemma_field_div_cancels(d: int, o: int, p: int)
    requires
        p > 1,
        0 <= d < p,
        invertible(o, p),
    ensures
        (field_div(d, o, p) * o) % p == d,
{
    let iv = field_inv(o, p);
    lemma_field_inv(o, p);
    lemma_mul_mod_noop_general(d * iv, o, p);
    assert(((d * iv) % p * o) % p == ((d * iv) * o) % p);
    assert((d * iv) * o == d * (o * iv)) by (nonlinear_arith);
    lemma_mul_mod_noop_general(d, o * iv, p);
    assert((d * (o * iv)) % p == (d * ((o * iv) % p)) % p);
    lemma_small_mod(d as nat, p as nat);
}

/// Computes the field division `d / o` modulo `prime`: `d` times the modular
/// inverse of `o`, as `field_div` fixes it.
pub(crate) fn field_div_exec(d: &BigInt, o: &BigInt, prime: &BigInt) -> (r: BigInt)
    requires
        big_val(*prime) > 0,
    ensures
        big_val(r) == field_div(big_val(*d), big_val(*o), big_val(*prime)),
{
    let om = big_mod_floor(o, prime);
    let (_g, x, _y) = egcd_exec(&om, prime);
    let iv = big_mod_floor(&x, prime);
    let prod = big_mul(d, &iv);
    big_mod_floor(&prod, prime)
}

/// The extended remainder chain on arbitrary-precision integers.
fn egcd_exec(a: &BigInt, b: &BigInt) -> (r: (BigInt, BigInt, BigInt))
    requires
        big_val(*a) >= 0,
        big_val(*b) >= 0,
    ensures
        (big_val(r.0), big_val(r.1), big_val(r.2)) == egcd(big_val(*a), big_val(*b)),
    decreases big_val(*b),
{
    if big_is_zero(b) {
        (a.clone(), big_from_u64(1), big_from_u64(0))
    } else {
        let q = big_div(a, b);
        let rem = big_mod_floor(a, b);
        let (g, x, y) = egcd_exec(b, &rem);
        let qy = big_mul(&q, &y);
        let y2 = big_sub(&x, &qy);
        (g, y, y2)
    }
}

} // verus!
