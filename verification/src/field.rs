//! Arithmetic in the base field, and polynomials over it.
//!
//! The base field is the prime field of order 2^62 - 111 * 2^39 + 1. Its
//! multiplicative group has a subgroup of every order that is a power of two
//! up to 2^39; these subgroups, shifted by an offset, are the domains over
//! which traces are interpolated and extended.
use vstd::arithmetic::div_mod::{lemma_mod_bound, lemma_mul_mod_noop_general, lemma_small_mod};
use vstd::arithmetic::mul::lemma_mul_is_associative;
use vstd::prelude::*;

verus! {

/// The order of the base field.
pub const MODULUS: u64 = 4611624995532046337;

/// The largest number of points that can be interpolated at once.
pub const MAX_TRACE_LENGTH: u64 = 2147483648;

/// The order of the largest power-of-two subgroup of the base field.
pub const MAX_DOMAIN_SIZE: u64 = 549755813888;

/// An element that generates the subgroup of order `MAX_DOMAIN_SIZE`.
pub const TWO_ADIC_ROOT_OF_UNITY: u64 = 4421547261963328785;

/// The product of two integers in the base field.
pub open spec fn field_mul(a: int, b: int) -> int {
    (a * b) % (MODULUS as int)
}

/// The power of an integer in the base field.
pub open spec fn field_pow(base: int, exp: nat) -> int
    decreases exp,
{
    if exp == 0 {
        1
    } else {
        field_mul(base, field_pow(base, (exp - 1) as nat))
    }
}

/// The generator of the subgroup of order `size`, a power of two.
pub open spec fn root_of_unity(size: int) -> int {
    field_pow(TWO_ADIC_ROOT_OF_UNITY as int, (MAX_DOMAIN_SIZE as int / size) as nat)
}

/// The point at `index` of the domain of `size` points shifted by `offset`.
pub open spec fn domain_point(size: int, offset: int, index: nat) -> int {
    field_mul(offset, field_pow(root_of_unity(size), index))
}

/// The value at `x` of the polynomial with the given coefficients, lowest
/// degree first.
pub open spec fn poly_eval(coeffs: Seq<u64>, x: int) -> int
    decreases coeffs.len(),
{
    if coeffs.len() == 0 {
        0
    } else {
        (coeffs.first() as int + field_mul(x, poly_eval(coeffs.drop_first(), x))) % (
        MODULUS as int)
    }
}

/// A power in the base field is a canonical integer.
pub proof fn lemma_field_pow_bound(base: int, exp: nat)
    ensures
        0 <= field_pow(base, exp) < MODULUS,
    decreases exp,
{
    if exp > 0 {
        lemma_mod_bound(base * field_pow(base, (exp - 1) as nat), MODULUS as int);
    }
}

/// Multiplies two elements of the base field.
pub fn mul_mod(a: u64, b: u64) -> (r: u64)
    ensures
        r == field_mul(a as int, b as int),
        r < MODULUS,
{
    assert(a * b <= 0xffff_ffff_ffff_ffff * 0xffff_ffff_ffff_ffff) by (nonlinear_arith)
        requires
            0 <= a <= 0xffff_ffff_ffff_ffff,
            0 <= b <= 0xffff_ffff_ffff_ffff,
    ;
    ((a as u128 * b as u128) % (MODULUS as u128)) as u64
}

/// Raises an element of the base field to a power.
pub fn pow_mod(base: u64, exp: u64) -> (r: u64)
    ensures
        r == field_pow(base as int, exp as nat),
        r < MODULUS,
{
    let mut result: u64 = 1;
    let mut square: u64 = base;
    let mut e: u64 = exp;
    proof {
        lemma_field_pow_bound(base as int, exp as nat);
        lemma_small_mod(field_pow(base as int, exp as nat) as nat, MODULUS as nat);
    }
    while e > 0
        invariant
            result < MODULUS,
            field_mul(result as int, field_pow(square as int, e as nat)) == field_pow(
                base as int,
                exp as nat,
            ),
        decreases e,
    {
        let ghost old_result = result as int;
        let ghost old_square = square as int;
        let ghost old_e = e as nat;
        if e % 2 == 1 {
            result = mul_mod(result, square);
        }
        square = mul_mod(square, square);
        e = e / 2;
        proof {
            lemma_pow_of_square(old_square, e as nat);
            let m = MODULUS as int;
            let half = field_pow(old_square, 2 * (e as nat));
            if old_e % 2 == 1 {
                lemma_mul_mod_noop_general(old_result, old_square * half, m);
                lemma_mul_mod_noop_general(old_result * old_square, half, m);
                lemma_mul_is_associative(old_result, old_square, half);
            }
        }
    }
    proof {
        lemma_small_mod(result as nat, MODULUS as nat);
    }
    result
}

/// The power of a square is the power to twice the exponent.
pub proof fn lemma_pow_of_square(base: int, exp: nat)
    ensures
        field_pow(field_mul(base, base), exp) == field_pow(base, 2 * exp),
    decreases exp,
{
    let m = MODULUS as int;
    if exp > 0 {
        let rest = field_pow(base, (2 * exp - 2) as nat);
        lemma_pow_of_square(base, (exp - 1) as nat);
        assert(field_pow(base, 2 * exp) == field_mul(base, field_mul(base, rest))) by {
            assert(field_pow(base, 2 * exp) == field_mul(base, field_pow(base, (2 * exp - 1) as nat)));
            assert(field_pow(base, (2 * exp - 1) as nat) == field_mul(base, rest));
        }
        lemma_mul_mod_noop_general(base * base, rest, m);
        lemma_mul_mod_noop_general(base, base * rest, m);
        lemma_mul_is_associative(base, base, rest);
    }
}

/// Computes the generator of the subgroup of order `size`.
pub fn get_root_of_unity(size: usize) -> (g: u64)
    requires
        1 <= size <= MAX_DOMAIN_SIZE,
    ensures
        g == root_of_unity(size as int),
        g < MODULUS,
{
    pow_mod(TWO_ADIC_ROOT_OF_UNITY, MAX_DOMAIN_SIZE / (size as u64))
}

/// Computes the point at `index` of the domain of `size` points shifted by
/// `offset`.
pub fn get_domain_point(size: usize, offset: u64, index: usize) -> (x: u64)
    requires
        1 <= size <= MAX_DOMAIN_SIZE,
    ensures
        x == domain_point(size as int, offset as int, index as nat),
        x < MODULUS,
{
    mul_mod(offset, pow_mod(get_root_of_unity(size), index as u64))
}

/// Evaluates the polynomial with the given coefficients, lowest degree
/// first, at `x`.
pub fn eval_poly(coeffs: &[u64], x: u64) -> (y: u64)
    ensures
        y == poly_eval(coeffs@, x as int),
        y < MODULUS,
{
    let mut acc: u64 = 0;
    let mut i: usize = coeffs.len();
    while i > 0
        invariant
            i <= coeffs.len(),
            acc < MODULUS,
            acc == poly_eval(coeffs@.skip(i as int), x as int),
        decreases i,
    {
        i = i - 1;
        let product = mul_mod(x, acc);
        proof {
            let tail = coeffs@.skip(i as int);
            assert(tail.drop_first() == coeffs@.skip(i + 1));
        }
        acc = ((coeffs[i] as u128 + product as u128) % (MODULUS as u128)) as u64;
    }
    assert(coeffs@.skip(0) == coeffs@);
    acc
}

} // verus!
