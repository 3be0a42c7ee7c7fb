//! The elements in the cells of a trace, and the transforms and hashes that
//! act on them.
//!
//! An element of the base field is held as its canonical integer, an element
//! of the quadratic extension as the pair of its two base coordinates.
//! Interpolation, evaluation and hashing are done by `winter-math` and
//! `winter-crypto`.
use crate::field::{domain_point, poly_eval, MAX_DOMAIN_SIZE, MAX_TRACE_LENGTH, MODULUS};
use vstd::arithmetic::power2::is_pow2;
use vstd::prelude::*;
use winter_crypto::hashers::Blake3_256;
use winter_crypto::{Digest, ElementHasher};
use winter_math::fft::{
    evaluate_poly_with_offset, get_inv_twiddles, get_twiddles, interpolate_poly,
};
use winter_math::fields::f62::BaseElement;
use winter_math::fields::QuadExtension;
use winter_math::StarkField;

verus! {

/// The twiddle factors that `winter_math::fft::get_twiddles` returns for a
/// domain of the given size.
pub uninterp spec fn twiddles_of(domain_size: usize) -> Seq<u64>;

/// The twiddle factors that `winter_math::fft::get_inv_twiddles` returns for
/// a domain of the given size.
pub uninterp spec fn inv_twiddles_of(domain_size: usize) -> Seq<u64>;

/// The coefficients that `winter_math::fft::interpolate_poly` leaves in place
/// of base-field evaluations.
pub uninterp spec fn base_interpolated(evaluations: Seq<u64>, inv_twiddles: Seq<u64>) -> Seq<u64>;

/// The evaluations that `winter_math::fft::evaluate_poly_with_offset` returns
/// for a polynomial with base-field coefficients.
pub uninterp spec fn base_evaluated(
    poly: Seq<u64>,
    twiddles: Seq<u64>,
    offset: u64,
    blowup: usize,
) -> Seq<u64>;

/// The digest that `Blake3_256::hash_elements` returns for a row of
/// base-field elements.
pub uninterp spec fn base_row_hash(row: Seq<u64>) -> Seq<u8>;

/// The coefficients that `winter_math::fft::interpolate_poly` leaves in place
/// of evaluations in the quadratic extension.
pub uninterp spec fn quad_interpolated(
    evaluations: Seq<(u64, u64)>,
    inv_twiddles: Seq<u64>,
) -> Seq<(u64, u64)>;

/// The evaluations that `winter_math::fft::evaluate_poly_with_offset` returns
/// for a polynomial with coefficients in the quadratic extension.
pub uninterp spec fn quad_evaluated(
    poly: Seq<(u64, u64)>,
    twiddles: Seq<u64>,
    offset: u64,
    blowup: usize,
) -> Seq<(u64, u64)>;

/// The digest that `Blake3_256::hash_elements` returns for a row of elements
/// of the quadratic extension.
pub uninterp spec fn quad_row_hash(row: Seq<(u64, u64)>) -> Seq<u8>;

/// The polynomial with the base-field coefficients `poly` takes the values
/// `values` on the domain of as many points that is shifted by `offset`:
/// its value at the point with index `i` is `values[i]`.
pub open spec fn base_takes_values(poly: Seq<u64>, values: Seq<u64>, offset: int) -> bool {
    forall|i: int|
        0 <= i < values.len() ==> (#[trigger] values[i]) as int % (MODULUS as int) == poly_eval(
            poly,
            domain_point(values.len() as int, offset, i as nat),
        )
}

/// The first coordinate of every element.
pub open spec fn first_coordinates(elements: Seq<(u64, u64)>) -> Seq<u64> {
    Seq::new(elements.len(), |k: int| elements[k].0)
}

/// The second coordinate of every element.
pub open spec fn second_coordinates(elements: Seq<(u64, u64)>) -> Seq<u64> {
    Seq::new(elements.len(), |k: int| elements[k].1)
}

/// The polynomial with the coefficients `poly` in the quadratic extension
/// takes the values `values` on the domain of as many points that is shifted
/// by `offset`. The points lie in the base field, so this holds coordinate
/// by coordinate.
pub open spec fn quad_takes_values(
    poly: Seq<(u64, u64)>,
    values: Seq<(u64, u64)>,
    offset: int,
) -> bool {
    &&& base_takes_values(first_coordinates(poly), first_coordinates(values), offset)
    &&& base_takes_values(second_coordinates(poly), second_coordinates(values), offset)
}

/// Calls `winter_math::fft::get_twiddles` for the base field. The function
/// panics unless the size is a power of two for which the field has a root
/// of unity; for such a size its result has half as many entries.
#[verifier::external_body]
pub(crate) fn twiddles(domain_size: usize) -> (r: Vec<u64>)
    requires
        is_pow2(domain_size as int),
        2 <= domain_size <= MAX_DOMAIN_SIZE,
    ensures
        r@ == twiddles_of(domain_size),
        r.len() * 2 == domain_size,
{
    get_twiddles::<BaseElement>(domain_size).iter().map(StarkField::as_int).collect()
}

/// Calls `winter_math::fft::get_inv_twiddles` for the base field. The
/// function panics unless the size is a power of two for which the field has
/// a root of unity, and it narrows the size to 32 bits before it subtracts
/// one; for a size within these limits its result has half as many entries.
#[verifier::external_body]
pub(crate) fn inv_twiddles(domain_size: usize) -> (r: Vec<u64>)
    requires
        is_pow2(domain_size as int),
        2 <= domain_size <= MAX_TRACE_LENGTH,
    ensures
        r@ == inv_twiddles_of(domain_size),
        r.len() * 2 == domain_size,
{
    get_inv_twiddles::<BaseElement>(domain_size).iter().map(StarkField::as_int).collect()
}

/// Calls `winter_math::fft::interpolate_poly` on a copy of base-field
/// evaluations. The function works in place, so there are as many
/// coefficients as evaluations. With the inverse twiddles of the domain, the
/// coefficients are those of the polynomial that has the given evaluations
/// on the domain of as many points. The function panics unless the number
/// of evaluations is a power of two within the field's limits and twice the
/// number of twiddles.
#[verifier::external_body]
fn interpolate_base(evaluations: &Vec<u64>, inv_twiddles: &Vec<u64>) -> (poly: Vec<u64>)
    requires
        is_pow2(evaluations.len() as int),
        evaluations.len() <= MAX_TRACE_LENGTH,
        inv_twiddles.len() * 2 == evaluations.len(),
    ensures
        poly@ == base_interpolated(evaluations@, inv_twiddles@),
        poly.len() == evaluations.len(),
        inv_twiddles@ == inv_twiddles_of(evaluations.len()) ==> base_takes_values(
            poly@,
            evaluations@,
            1,
        ),
{
    let mut values: Vec<BaseElement> = evaluations.iter().copied().map(BaseElement::new).collect();
    let factors: Vec<BaseElement> = inv_twiddles.iter().copied().map(BaseElement::new).collect();
    interpolate_poly(&mut values, &factors);
    values.iter().map(StarkField::as_int).collect()
}

/// Calls `winter_math::fft::evaluate_poly_with_offset` on base-field
/// coefficients. The result holds one evaluation for each point of the
/// domain, which has `blowup` times as many points as the polynomial has
/// coefficients and is shifted by the offset. With the twiddles of the
/// polynomial's length, the evaluations are the values of the polynomial at
/// the points of that domain, in their order. The function panics unless
/// both numbers are powers of two, the field has a subgroup of the domain's
/// size, there are half as many twiddles as coefficients, and the offset is
/// not zero.
#[verifier::external_body]
fn evaluate_base(poly: &Vec<u64>, twiddles: &Vec<u64>, offset: u64, blowup: usize) -> (r: Vec<u64>)
    requires
        is_pow2(poly.len() as int),
        is_pow2(blowup as int),
        twiddles.len() * 2 == poly.len(),
        poly.len() * blowup <= MAX_DOMAIN_SIZE,
        poly.len() * blowup <= usize::MAX,
        0 < offset < MODULUS,
    ensures
        r@ == base_evaluated(poly@, twiddles@, offset, blowup),
        r.len() == poly.len() * blowup,
        twiddles@ == twiddles_of(poly.len()) ==> base_takes_values(poly@, r@, offset as int),
{
    let values: Vec<BaseElement> = poly.iter().copied().map(BaseElement::new).collect();
    let factors: Vec<BaseElement> = twiddles.iter().copied().map(BaseElement::new).collect();
    let shift = BaseElement::new(offset);
    evaluate_poly_with_offset(&values, &factors, shift, blowup).iter().map(StarkField::as_int).collect()
}

/// Calls `Blake3_256::hash_elements` on a row of base-field elements and
/// gives the digest as bytes.
#[verifier::external_body]
fn hash_base(row: &[u64]) -> (digest: [u8; 32])
    ensures
        digest@ == base_row_hash(row@),
{
    let values: Vec<BaseElement> = row.iter().copied().map(BaseElement::new).collect();
    Blake3_256::<BaseElement>::hash_elements(&values).as_bytes()
}

/// Calls `winter_math::fft::interpolate_poly` on a copy of evaluations in the
/// quadratic extension, under the same conditions as for the base field.
/// The points of the domain lie in the base field, so the polynomial has the
/// given evaluations coordinate by coordinate.
#[verifier::external_body]
fn interpolate_quad(evaluations: &Vec<(u64, u64)>, inv_twiddles: &Vec<u64>) -> (poly: Vec<
    (u64, u64),
>)
    requires
        is_pow2(evaluations.len() as int),
        evaluations.len() <= MAX_TRACE_LENGTH,
        inv_twiddles.len() * 2 == evaluations.len(),
    ensures
        poly@ == quad_interpolated(evaluations@, inv_twiddles@),
        poly.len() == evaluations.len(),
        inv_twiddles@ == inv_twiddles_of(evaluations.len()) ==> quad_takes_values(
            poly@,
            evaluations@,
            1,
        ),
{
    let mut values: Vec<QuadExtension<BaseElement>> = evaluations.iter().map(
        |v| QuadExtension::new(BaseElement::new(v.0), BaseElement::new(v.1)),
    ).collect();
    let factors: Vec<BaseElement> = inv_twiddles.iter().copied().map(BaseElement::new).collect();
    interpolate_poly(&mut values, &factors);
    values.iter().map(|e| e.to_base_elements()).map(|c| (c[0].as_int(), c[1].as_int())).collect()
}

/// Calls `winter_math::fft::evaluate_poly_with_offset` on coefficients in the
/// quadratic extension, under the same conditions as for the base field.
/// The points of the domain lie in the base field, so the evaluations are
/// the values of the polynomial coordinate by coordinate.
#[verifier::external_body]
fn evaluate_quad(
    poly: &Vec<(u64, u64)>,
    twiddles: &Vec<u64>,
    offset: u64,
    blowup: usize,
) -> (r: Vec<(u64, u64)>)
    requires
        is_pow2(poly.len() as int),
        is_pow2(blowup as int),
        twiddles.len() * 2 == poly.len(),
        poly.len() * blowup <= MAX_DOMAIN_SIZE,
        poly.len() * blowup <= usize::MAX,
        0 < offset < MODULUS,
    ensures
        r@ == quad_evaluated(poly@, twiddles@, offset, blowup),
        r.len() == poly.len() * blowup,
        twiddles@ == twiddles_of(poly.len()) ==> quad_takes_values(poly@, r@, offset as int),
{
    let values: Vec<QuadExtension<BaseElement>> = poly.iter().map(
        |v| QuadExtension::new(BaseElement::new(v.0), BaseElement::new(v.1)),
    ).collect();
    let factors: Vec<BaseElement> = twiddles.iter().copied().map(BaseElement::new).collect();
    let r = evaluate_poly_with_offset(&values, &factors, BaseElement::new(offset), blowup);
    r.iter().map(|e| e.to_base_elements()).map(|c| (c[0].as_int(), c[1].as_int())).collect()
}

/// Calls `Blake3_256::hash_elements` on a row of elements of the quadratic
/// extension and gives the digest as bytes.
#[verifier::external_body]
fn hash_quad(row: &[(u64, u64)]) -> (digest: [u8; 32])
    ensures
        digest@ == quad_row_hash(row@),
{
    let values: Vec<QuadExtension<BaseElement>> = row.iter().map(
        |v| QuadExtension::new(BaseElement::new(v.0), BaseElement::new(v.1)),
    ).collect();
    Blake3_256::<BaseElement>::hash_elements(&values).as_bytes()
}

/// What a trace segment needs of the elements in its cells: they can be
/// interpolated, evaluated over a shifted domain, hashed row by row, and
/// written out as base-field coordinates.
pub trait Element: Sized {
    /// The coefficients of the polynomial that takes the given values on the
    /// domain that the inverse twiddle factors belong to.
    spec fn interpolated(evaluations: Seq<Self>, inv_twiddles: Seq<u64>) -> Seq<Self>;

    /// The values of a polynomial on the domain that is `blowup` times as
    /// large as the one the twiddle factors belong to, shifted by `offset`.
    spec fn evaluated(poly: Seq<Self>, twiddles: Seq<u64>, offset: u64, blowup: usize) -> Seq<
        Self,
    >;

    /// The polynomial with the coefficients `poly` takes the values
    /// `values` on the domain of as many points that is shifted by `offset`.
    spec fn takes_values(poly: Seq<Self>, values: Seq<Self>, offset: int) -> bool;

    /// The digest of a row.
    spec fn row_digest(row: Seq<Self>) -> Seq<u8>;

    /// The base-field coordinates of an element.
    spec fn coordinates(self) -> Seq<u64>;

    /// The zero of the field.
    spec fn spec_zero() -> Self;

    /// The zero of the field.
    fn zero() -> (z: Self)
        ensures
            z == Self::spec_zero(),
    ;

    /// Interpolates evaluations into coefficients.
    fn interpolate(evaluations: &Vec<Self>, inv_twiddles: &Vec<u64>) -> (poly: Vec<Self>)
        requires
            is_pow2(evaluations.len() as int),
            evaluations.len() <= MAX_TRACE_LENGTH,
            inv_twiddles.len() * 2 == evaluations.len(),
        ensures
            poly@ == Self::interpolated(evaluations@, inv_twiddles@),
            poly.len() == evaluations.len(),
            inv_twiddles@ == inv_twiddles_of(evaluations.len()) ==> Self::takes_values(
                poly@,
                evaluations@,
                1,
            ),
    ;

    /// Evaluates a polynomial over the shifted, enlarged domain.
    fn evaluate(poly: &Vec<Self>, twiddles: &Vec<u64>, offset: u64, blowup: usize) -> (r: Vec<
        Self,
    >)
        requires
            is_pow2(poly.len() as int),
            is_pow2(blowup as int),
            twiddles.len() * 2 == poly.len(),
            poly.len() * blowup <= MAX_DOMAIN_SIZE,
            poly.len() * blowup <= usize::MAX,
            0 < offset < MODULUS,
        ensures
            r@ == Self::evaluated(poly@, twiddles@, offset, blowup),
            r.len() == poly.len() * blowup,
            twiddles@ == twiddles_of(poly.len()) ==> Self::takes_values(
                poly@,
                r@,
                offset as int,
            ),
    ;

    /// Hashes a row into a digest.
    fn hash_row(row: &[Self]) -> (digest: [u8; 32])
        ensures
            digest@ == Self::row_digest(row@),
    ;

    /// Appends the element's base-field coordinates to `out`.
    fn write_coordinates(&self, out: &mut Vec<u64>)
        ensures
            final(out)@ == old(out)@ + self.coordinates(),
    ;
}

impl Element for u64 {
    open spec fn interpolated(evaluations: Seq<u64>, inv_twiddles: Seq<u64>) -> Seq<u64> {
        base_interpolated(evaluations, inv_twiddles)
    }

    open spec fn evaluated(poly: Seq<u64>, twiddles: Seq<u64>, offset: u64, blowup: usize) -> Seq<
        u64,
    > {
        base_evaluated(poly, twiddles, offset, blowup)
    }

    open spec fn takes_values(poly: Seq<u64>, values: Seq<u64>, offset: int) -> bool {
        base_takes_values(poly, values, offset)
    }

    open spec fn row_digest(row: Seq<u64>) -> Seq<u8> {
        base_row_hash(row)
    }

    open spec fn coordinates(self) -> Seq<u64> {
        seq![self]
    }

    open spec fn spec_zero() -> u64 {
        0
    }

    fn zero() -> (z: u64) {
        0
    }

    fn interpolate(evaluations: &Vec<u64>, inv_twiddles: &Vec<u64>) -> (poly: Vec<u64>) {
        interpolate_base(evaluations, inv_twiddles)
    }

    fn evaluate(poly: &Vec<u64>, twiddles: &Vec<u64>, offset: u64, blowup: usize) -> (r: Vec<
        u64,
    >) {
        evaluate_base(poly, twiddles, offset, blowup)
    }

    fn hash_row(row: &[u64]) -> (digest: [u8; 32]) {
        hash_base(row)
    }

    fn write_coordinates(&self, out: &mut Vec<u64>) {
        out.push(*self);
    }
}

impl Element for (u64, u64) {
    open spec fn interpolated(evaluations: Seq<(u64, u64)>, inv_twiddles: Seq<u64>) -> Seq<
        (u64, u64),
    > {
        quad_interpolated(evaluations, inv_twiddles)
    }

    open spec fn evaluated(
        poly: Seq<(u64, u64)>,
        twiddles: Seq<u64>,
        offset: u64,
        blowup: usize,
    ) -> Seq<(u64, u64)> {
        quad_evaluated(poly, twiddles, offset, blowup)
    }

    open spec fn takes_values(poly: Seq<(u64, u64)>, values: Seq<(u64, u64)>, offset: int) -> bool {
        quad_takes_values(poly, values, offset)
    }

    open spec fn row_digest(row: Seq<(u64, u64)>) -> Seq<u8> {
        quad_row_hash(row)
    }

    open spec fn coordinates(self) -> Seq<u64> {
        seq![self.0, self.1]
    }

    open spec fn spec_zero() -> (u64, u64) {
        (0, 0)
    }

    fn zero() -> (z: (u64, u64)) {
        (0, 0)
    }

    fn interpolate(evaluations: &Vec<(u64, u64)>, inv_twiddles: &Vec<u64>) -> (poly: Vec<
        (u64, u64),
    >) {
        interpolate_quad(evaluations, inv_twiddles)
    }

    fn evaluate(poly: &Vec<(u64, u64)>, twiddles: &Vec<u64>, offset: u64, blowup: usize) -> (r:
        Vec<(u64, u64)>) {
        evaluate_quad(poly, twiddles, offset, blowup)
    }

    fn hash_row(row: &[(u64, u64)]) -> (digest: [u8; 32]) {
        hash_quad(row)
    }

    fn write_coordinates(&self, out: &mut Vec<u64>) {
        out.push(self.0);
        out.push(self.1);
    }
}

/// The base-field coordinates of all elements of a row, in order.
pub open spec fn row_coordinates<E: Element>(row: Seq<E>) -> Seq<u64>
    decreases row.len(),
{
    if row.len() == 0 {
        Seq::empty()
    } else {
        row_coordinates(row.drop_last()) + row.last().coordinates()
    }
}

/// Writes out the base-field coordinates of all elements of a row.
pub fn coordinates_of_row<E: Element>(row: &[E]) -> (out: Vec<u64>)
    ensures
        out@ == row_coordinates(row@),
{
    let mut out: Vec<u64> = Vec::new();
    let mut j: usize = 0;
    while j < row.len()
        invariant
            j <= row.len(),
            out@ == row_coordinates(row@.take(j as int)),
        decreases row.len() - j,
    {
        assert(row@.take(j + 1).drop_last() == row@.take(j as int));
        row[j].write_coordinates(&mut out);
        j = j + 1;
    }
    assert(row@.take(j as int) == row@);
    out
}

} // verus!
