//! The domains over which a trace is interpolated and extended.
use crate::element::{twiddles, twiddles_of};
use crate::field::{MAX_DOMAIN_SIZE, MAX_TRACE_LENGTH, MODULUS};
use crate::power::{is_power_of_two, lemma_pow2_product};
use vstd::arithmetic::power2::is_pow2;
use vstd::prelude::*;

verus! {

/// The sizes that a trace of `trace_length` rows can be extended with: both
/// numbers are powers of two, the trace has at least two rows and no more
/// than can be interpolated, the extended domain fits into the field and
/// into memory, and the offset is a nonzero element of the base field.
pub open spec fn valid_domain(trace_length: usize, blowup: usize, offset: u64) -> bool {
    &&& is_pow2(trace_length as int)
    &&& 2 <= trace_length <= MAX_TRACE_LENGTH
    &&& is_pow2(blowup as int)
    &&& trace_length * blowup <= MAX_DOMAIN_SIZE
    &&& trace_length * blowup <= usize::MAX
    &&& 0 < offset < MODULUS
}

/// Describes the trace domain and the larger, shifted domain over which the
/// trace is extended.
pub struct StarkDomain {
    trace_twiddles: Vec<u64>,
    trace_length: usize,
    lde_domain_size: usize,
    blowup: usize,
    offset: u64,
}

impl StarkDomain {
    /// The number of rows of the trace.
    pub closed spec fn spec_trace_length(&self) -> usize {
        self.trace_length
    }

    /// The factor by which the extended domain is larger than the trace.
    pub closed spec fn spec_blowup(&self) -> usize {
        self.blowup
    }

    /// The element by which the extended domain is shifted.
    pub closed spec fn spec_offset(&self) -> u64 {
        self.offset
    }

    /// The twiddle factors kept for evaluating trace polynomials.
    pub closed spec fn spec_trace_twiddles(&self) -> Seq<u64> {
        self.trace_twiddles@
    }

    /// The number of points of the extended domain.
    pub closed spec fn spec_lde_domain_size(&self) -> usize {
        self.lde_domain_size
    }

    /// The domain's sizes are valid, the extended domain is `blowup` times
    /// as large as the trace, and the twiddle factors are those of the trace
    /// length, one for every two steps of the trace.
    pub open spec fn wf(&self) -> bool {
        &&& valid_domain(self.spec_trace_length(), self.spec_blowup(), self.spec_offset())
        &&& self.spec_lde_domain_size() == self.spec_trace_length() * self.spec_blowup()
        &&& self.spec_trace_twiddles() == twiddles_of(self.spec_trace_length())
        &&& self.spec_trace_twiddles().len() * 2 == self.spec_trace_length()
    }

    /// In a well-formed domain the extended size is a power of two, at least
    /// two, and a multiple of the blowup factor that is no smaller than it.
    pub proof fn lemma_lde_domain_size(&self)
        requires
            self.wf(),
        ensures
            is_pow2(self.spec_lde_domain_size() as int),
            2 <= self.spec_lde_domain_size(),
            1 <= self.spec_blowup() <= self.spec_lde_domain_size(),
            self.spec_blowup() + self.spec_blowup() <= self.spec_lde_domain_size(),
    {
        let n = self.spec_trace_length() as int;
        let b = self.spec_blowup() as int;
        lemma_pow2_product(n, b);
        assert(b >= 1) by {
            reveal(is_pow2);
        }
        assert(n * b >= 2 * b) by (nonlinear_arith)
            requires
                n >= 2,
                b >= 1,
        ;
    }

    /// Describes the domains of a trace of `trace_length` rows that is
    /// extended by the factor `blowup` over a domain shifted by `offset`, if
    /// these are valid.
    pub fn new(trace_length: usize, blowup: usize, offset: u64) -> (r: Option<StarkDomain>)
        ensures
            r.is_some() == valid_domain(trace_length, blowup, offset),
            r matches Some(domain) ==> {
                &&& domain.wf()
                &&& domain.spec_trace_length() == trace_length
                &&& domain.spec_blowup() == blowup
                &&& domain.spec_offset() == offset
                &&& domain.spec_lde_domain_size() == trace_length * blowup
            },
    {
        if !is_power_of_two(trace_length) || trace_length < 2 || trace_length as u64
            > MAX_TRACE_LENGTH {
            return None;
        }
        if !is_power_of_two(blowup) || offset == 0 || offset >= MODULUS {
            return None;
        }
        assert(trace_length * blowup <= 0x8000_0000 * 0xffff_ffff_ffff_ffff) by (nonlinear_arith)
            requires
                0 <= trace_length <= 0x8000_0000,
                0 <= blowup <= 0xffff_ffff_ffff_ffff,
        ;
        let size: u128 = trace_length as u128 * blowup as u128;
        if size > MAX_DOMAIN_SIZE as u128 || size > usize::MAX as u128 {
            return None;
        }
        let trace_twiddles = twiddles(trace_length);
        Some(
            StarkDomain {
                trace_twiddles,
                trace_length,
                lde_domain_size: size as usize,
                blowup,
                offset,
            },
        )
    }

    /// The number of rows of the trace.
    pub fn trace_length(&self) -> (n: usize)
        ensures
            n == self.spec_trace_length(),
    {
        self.trace_length
    }

    /// The factor by which the extended domain is larger than the trace.
    pub fn trace_to_lde_blowup(&self) -> (b: usize)
        ensures
            b == self.spec_blowup(),
    {
        self.blowup
    }

    /// The number of points of the extended domain.
    pub fn lde_domain_size(&self) -> (n: usize)
        ensures
            n == self.spec_lde_domain_size(),
    {
        self.lde_domain_size
    }

    /// The element by which the extended domain is shifted.
    pub fn offset(&self) -> (offset: u64)
        ensures
            offset == self.spec_offset(),
    {
        self.offset
    }

    /// The twiddle factors for evaluating trace polynomials.
    pub fn trace_twiddles(&self) -> (t: &Vec<u64>)
        ensures
            t@ == self.spec_trace_twiddles(),
    {
        &self.trace_twiddles
    }
}

} // verus!
