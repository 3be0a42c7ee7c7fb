use trace_lde::element::{coordinates_of_row, Element};
use trace_lde::domain::StarkDomain;
use trace_lde::field::{
    eval_poly, get_domain_point, get_root_of_unity, mul_mod, pow_mod, MAX_DOMAIN_SIZE,
    MAX_TRACE_LENGTH, MODULUS, TWO_ADIC_ROOT_OF_UNITY,
};
use trace_lde::matrix::{ColMatrix, RowMatrix};
use trace_lde::power::is_power_of_two;
use winter_crypto::hashers::Blake3_256;
use winter_crypto::{Digest, ElementHasher};
use winter_math::fields::f62::BaseElement;
use winter_math::fields::QuadExtension;
use winter_math::{fft, polynom, FieldElement, StarkField};

type Quad = QuadExtension<BaseElement>;

fn base(values: &[u64]) -> Vec<BaseElement> {
    values.iter().map(|v| BaseElement::new(*v)).collect()
}

fn quad(values: &[(u64, u64)]) -> Vec<Quad> {
    values.iter().map(|v| Quad::new(BaseElement::new(v.0), BaseElement::new(v.1))).collect()
}

fn ints(values: &[BaseElement]) -> Vec<u64> {
    values.iter().map(|e| e.as_int()).collect()
}

fn pairs(values: &[Quad]) -> Vec<(u64, u64)> {
    values
        .iter()
        .map(|e| {
            let c = e.to_base_elements();
            (c[0].as_int(), c[1].as_int())
        })
        .collect()
}

#[test]
fn constants_describe_the_field() {
    assert_eq!(MODULUS, BaseElement::MODULUS);
    assert_eq!(MODULUS, (1u64 << 62) - 111 * (1u64 << 39) + 1);
    assert_eq!(MAX_DOMAIN_SIZE, 1u64 << BaseElement::TWO_ADICITY);
    assert_eq!(MAX_TRACE_LENGTH, 1u64 << 31);
}

#[test]
fn power_of_two_test_is_exact() {
    assert!(!is_power_of_two(0));
    assert!(is_power_of_two(1));
    assert!(is_power_of_two(2));
    assert!(!is_power_of_two(3));
    assert!(is_power_of_two(4));
    assert!(!is_power_of_two(6));
    assert!(!is_power_of_two(12));
    assert!(is_power_of_two(1 << 20));
    assert!(!is_power_of_two((1 << 20) + 1));
    assert!(!is_power_of_two(usize::MAX));
    assert!(is_power_of_two(usize::MAX / 2 + 1));
    for n in 0..1000usize {
        assert_eq!(is_power_of_two(n), n.is_power_of_two());
    }
}

#[test]
fn base_interpolation_recovers_the_polynomial() {
    let poly: Vec<u64> = vec![5, 0, 7, 11];
    let g = BaseElement::get_root_of_unity(2);
    let values: Vec<u64> =
        (0..4u64).map(|i| polynom::eval(&base(&poly), g.exp(i)).as_int()).collect();
    assert_ne!(values, poly);
    let factors = ints(&fft::get_inv_twiddles::<BaseElement>(4));
    assert_eq!(<u64 as Element>::interpolate(&values, &factors), poly);
}

#[test]
fn base_interpolation_of_two_points() {
    let factors = ints(&fft::get_inv_twiddles::<BaseElement>(2));
    assert_eq!(factors.len(), 1);
    let poly = <u64 as Element>::interpolate(&vec![10, 4], &factors);
    // p(1) = 10, p(-1) = 4: p(x) = 7 + 3x
    assert_eq!(poly, vec![7, 3]);
}

#[test]
fn base_interpolation_reduces_large_integers() {
    let factors = ints(&fft::get_inv_twiddles::<BaseElement>(2));
    let reduced = <u64 as Element>::interpolate(&vec![10, 4], &factors);
    let large = <u64 as Element>::interpolate(&vec![MODULUS + 10, MODULUS + 4], &factors);
    assert_eq!(large, reduced);
}

#[test]
fn base_evaluation_matches_direct_evaluation() {
    let poly: Vec<u64> = vec![3, 1, 4, 1, 5, 9, 2, 6];
    let twiddles = ints(&fft::get_twiddles::<BaseElement>(8));
    let offset: u64 = 3;
    let values = <u64 as Element>::evaluate(&poly, &twiddles, offset, 4);
    assert_eq!(values.len(), 32);
    let g = BaseElement::get_root_of_unity(5);
    for i in 0..32u64 {
        let x = g.exp(i) * BaseElement::new(offset);
        assert_eq!(values[i as usize], polynom::eval(&base(&poly), x).as_int());
    }
}

#[test]
fn base_evaluation_with_blowup_one_keeps_the_length() {
    let poly: Vec<u64> = vec![2, 5];
    let twiddles = ints(&fft::get_twiddles::<BaseElement>(2));
    let values = <u64 as Element>::evaluate(&poly, &twiddles, 1, 1);
    // p(x) = 2 + 5x at 1 and -1
    assert_eq!(values, vec![7, MODULUS - 3]);
}

#[test]
fn quad_interpolation_recovers_the_polynomial() {
    let poly: Vec<(u64, u64)> = vec![(5, 1), (0, 2), (7, 0), (11, 13)];
    let g = BaseElement::get_root_of_unity(2);
    let values: Vec<(u64, u64)> = pairs(
        &(0..4u64).map(|i| polynom::eval(&quad(&poly), Quad::from(g.exp(i)))).collect::<Vec<_>>(),
    );
    assert_ne!(values, poly);
    let factors = ints(&fft::get_inv_twiddles::<BaseElement>(4));
    assert_eq!(<(u64, u64) as Element>::interpolate(&values, &factors), poly);
}

#[test]
fn quad_evaluation_matches_direct_evaluation() {
    let poly: Vec<(u64, u64)> = vec![(3, 1), (4, 1), (5, 9), (2, 6)];
    let twiddles = ints(&fft::get_twiddles::<BaseElement>(4));
    let offset: u64 = 7;
    let values = <(u64, u64) as Element>::evaluate(&poly, &twiddles, offset, 2);
    assert_eq!(values.len(), 8);
    let g = BaseElement::get_root_of_unity(3);
    for i in 0..8u64 {
        let x = Quad::from(g.exp(i) * BaseElement::new(offset));
        let expected = pairs(&[polynom::eval(&quad(&poly), x)])[0];
        assert_eq!(values[i as usize], expected);
    }
}

#[test]
fn rows_hash_as_the_hasher_hashes_their_elements() {
    let row: Vec<u64> = vec![1, 2, 3];
    let digest = <u64 as Element>::hash_row(&row);
    assert_eq!(digest, Blake3_256::<BaseElement>::hash_elements(&base(&row)).as_bytes());
    assert_ne!(digest, <u64 as Element>::hash_row(&[1, 2, 4]));
    assert_ne!(digest, [0u8; 32]);

    let row: Vec<(u64, u64)> = vec![(1, 2), (3, 4)];
    let digest = <(u64, u64) as Element>::hash_row(&row);
    assert_eq!(digest, Blake3_256::<BaseElement>::hash_elements(&quad(&row)).as_bytes());
    assert_ne!(digest, <(u64, u64) as Element>::hash_row(&[(1, 2), (4, 3)]));
}

#[test]
fn coordinates_are_written_in_order() {
    assert_eq!(coordinates_of_row::<u64>(&[]), Vec::<u64>::new());
    assert_eq!(coordinates_of_row::<u64>(&[9, 8, 7]), vec![9, 8, 7]);
    assert_eq!(coordinates_of_row::<(u64, u64)>(&[(1, 2), (3, 4)]), vec![1, 2, 3, 4]);
    let mut out: Vec<u64> = vec![0];
    (5u64, 6u64).write_coordinates(&mut out);
    7u64.write_coordinates(&mut out);
    assert_eq!(out, vec![0, 5, 6, 7]);
}

#[test]
fn zero_is_the_additive_identity() {
    assert_eq!(<u64 as Element>::zero(), BaseElement::ZERO.as_int());
    assert_eq!(<(u64, u64) as Element>::zero(), pairs(&[Quad::ZERO])[0]);
}

#[test]
fn field_arithmetic_agrees_with_the_field() {
    assert_eq!(TWO_ADIC_ROOT_OF_UNITY, BaseElement::TWO_ADIC_ROOT_OF_UNITY.as_int());
    assert_eq!(mul_mod(0, 5), 0);
    assert_eq!(mul_mod(3, 5), 15);
    assert_eq!(mul_mod(MODULUS - 1, MODULUS - 1), 1);
    assert_eq!(mul_mod(MODULUS + 2, 3), 6);
    assert_eq!(mul_mod(u64::MAX, u64::MAX), (BaseElement::new(u64::MAX) * BaseElement::new(u64::MAX)).as_int());
    let samples: [u64; 6] = [0, 1, 2, 12345678901234567, MODULUS - 1, 4421547261963328785];
    for a in samples {
        for b in samples {
            assert_eq!(mul_mod(a, b), (BaseElement::new(a) * BaseElement::new(b)).as_int());
        }
        for e in [0u64, 1, 2, 3, 10, 1 << 20, (1 << 38) + 7, u64::MAX] {
            assert_eq!(pow_mod(a, e), BaseElement::new(a).exp(e).as_int());
        }
    }
    assert_eq!(pow_mod(7, 0), 1);
    assert_eq!(pow_mod(0, 0), 1);
    assert_eq!(pow_mod(2, 10), 1024);
}

#[test]
fn roots_of_unity_generate_the_domains() {
    assert_eq!(get_root_of_unity(1), 1);
    assert_eq!(get_root_of_unity(2), MODULUS - 1);
    for log in 1..=39u32 {
        let size = 1usize << log;
        let g = get_root_of_unity(size);
        assert_eq!(g, BaseElement::get_root_of_unity(log).as_int());
        assert_eq!(pow_mod(g, size as u64), 1);
        assert_eq!(pow_mod(g, (size / 2) as u64), MODULUS - 1);
    }
    assert_eq!(get_root_of_unity(MAX_DOMAIN_SIZE as usize), TWO_ADIC_ROOT_OF_UNITY);
    let g = BaseElement::get_root_of_unity(4);
    for i in 0..16usize {
        let expected = (g.exp(i as u64) * BaseElement::new(3)).as_int();
        assert_eq!(get_domain_point(16, 3, i), expected);
        assert_eq!(get_domain_point(16, 1, i), g.exp(i as u64).as_int());
    }
    assert_eq!(get_domain_point(8, 5, 0), 5);
    assert_eq!(get_domain_point(8, 1, 8), 1);
}

#[test]
fn polynomials_are_evaluated_by_their_coefficients() {
    assert_eq!(eval_poly(&[], 5), 0);
    assert_eq!(eval_poly(&[7], 5), 7);
    assert_eq!(eval_poly(&[1, 2, 3], 2), 17);
    assert_eq!(eval_poly(&[MODULUS + 1, 2], 3), 7);
    assert_eq!(eval_poly(&[0, MODULUS - 1], MODULUS - 1), 1);
    let poly: Vec<u64> = vec![3, 1, 4, 1, 5, 9, 2, 6, MODULUS - 1, u64::MAX];
    for x in [0u64, 1, 2, 1234567, MODULUS - 1, MODULUS + 5, u64::MAX] {
        let expected = polynom::eval(&base(&poly), BaseElement::new(x)).as_int();
        assert_eq!(eval_poly(&poly, x), expected);
    }
}

#[test]
fn interpolated_polynomials_take_the_values_on_the_trace_domain() {
    for log in 1..=6u32 {
        let n = 1usize << log;
        let values: Vec<u64> =
            (0..n as u64).map(|i| i * i * 7919 + 13 + (i % 3) * MODULUS).collect();
        let factors = ints(&fft::get_inv_twiddles::<BaseElement>(n));
        let poly = <u64 as Element>::interpolate(&values, &factors);
        assert_eq!(poly.len(), n);
        for i in 0..n {
            assert!(poly[i] < MODULUS);
            assert_eq!(eval_poly(&poly, get_domain_point(n, 1, i)), values[i] % MODULUS);
        }
    }
}

#[test]
fn evaluations_are_the_values_on_the_shifted_domain() {
    for log in 1..=4u32 {
        for blowup in [1usize, 2, 4, 8] {
            for offset in [1u64, 3, MODULUS - 1] {
                let n = 1usize << log;
                let poly: Vec<u64> = (0..n as u64).map(|i| 31 * i + 5 + (i % 2) * MODULUS).collect();
                let twiddles = ints(&fft::get_twiddles::<BaseElement>(n));
                let values = <u64 as Element>::evaluate(&poly, &twiddles, offset, blowup);
                assert_eq!(values.len(), n * blowup);
                for i in 0..n * blowup {
                    let x = get_domain_point(n * blowup, offset, i);
                    assert_eq!(values[i], eval_poly(&poly, x));
                }
            }
        }
    }
}

#[test]
fn quadratic_transforms_act_on_each_coordinate() {
    let n = 8usize;
    let values: Vec<(u64, u64)> = (0..n as u64).map(|i| (i * i + 1, 1000 - 3 * i)).collect();
    let factors = ints(&fft::get_inv_twiddles::<BaseElement>(n));
    let poly = <(u64, u64) as Element>::interpolate(&values, &factors);
    let firsts: Vec<u64> = poly.iter().map(|e| e.0).collect();
    let seconds: Vec<u64> = poly.iter().map(|e| e.1).collect();
    for i in 0..n {
        let x = get_domain_point(n, 1, i);
        assert_eq!(eval_poly(&firsts, x), values[i].0);
        assert_eq!(eval_poly(&seconds, x), values[i].1);
    }
    let twiddles = ints(&fft::get_twiddles::<BaseElement>(n));
    let extended = <(u64, u64) as Element>::evaluate(&poly, &twiddles, 3, 4);
    assert_eq!(extended.len(), 32);
    for i in 0..32 {
        let x = get_domain_point(32, 3, i);
        assert_eq!(extended[i], (eval_poly(&firsts, x), eval_poly(&seconds, x)));
    }
}

#[test]
fn extended_table_holds_the_values_of_the_trace_polynomials() {
    let c0: Vec<u64> = (0..16u64).map(|i| 3 * i + 1).collect();
    let c1: Vec<u64> = (0..16u64).map(|i| i * i * i).collect();
    let trace = ColMatrix::new(vec![c0, c1]).unwrap();
    let domain = StarkDomain::new(16, 4, 3).unwrap();
    let polys = trace.interpolate_columns();
    let lde = RowMatrix::evaluate_polys_over(&polys, &domain);
    for j in 0..2 {
        for i in 0..16 {
            let x = get_domain_point(16, 1, i);
            assert_eq!(eval_poly(polys.get_column(j), x), trace.get(j, i));
        }
        for i in 0..64 {
            let x = get_domain_point(64, 3, i);
            assert_eq!(lde.get(j, i), eval_poly(polys.get_column(j), x));
        }
    }
}
