use rand::rngs::SmallRng;
use rand::SeedableRng;
use sample_bench::{place, random_order, RejectionSampling, SampleAlgorithm};

fn check_distinct_below(res: &[u32], n: u32) {
    for (i, &x) in res.iter().enumerate() {
        assert!(x < n, "value {} out of range {}", x, n);
        assert!(!res[..i].contains(&x), "value {} repeated", x);
    }
}

#[test]
fn distinct_and_in_range_for_many_sizes() {
    let mut rng = SmallRng::seed_from_u64(1);
    for n in 1u32..=40 {
        for k in 1..=n {
            let mut res = vec![u32::MAX; k as usize];
            random_order(&mut rng, n, &mut res);
            assert_eq!(res.len(), k as usize);
            check_distinct_below(&res, n);
        }
    }
}

#[test]
fn large_domain_small_sample() {
    let mut rng = SmallRng::seed_from_u64(2);
    let mut res = vec![0u32; 100];
    random_order(&mut rng, 1_000_000_000, &mut res);
    check_distinct_below(&res, 1_000_000_000);
}

#[test]
fn full_sample_is_permutation() {
    let mut rng = SmallRng::seed_from_u64(3);
    for n in [1u32, 2, 5, 17, 64, 300] {
        let mut res = vec![0u32; n as usize];
        random_order(&mut rng, n, &mut res);
        let mut sorted = res.clone();
        sorted.sort();
        let expected: Vec<u32> = (0..n).collect();
        assert_eq!(sorted, expected);
    }
}

#[test]
fn single_value_domain() {
    let mut rng = SmallRng::seed_from_u64(4);
    let mut res = vec![7u32; 1];
    random_order(&mut rng, 1, &mut res);
    assert_eq!(res, vec![0]);
}

#[test]
fn empty_buffer_is_left_empty() {
    let mut rng = SmallRng::seed_from_u64(5);
    let mut res: Vec<u32> = Vec::new();
    random_order(&mut rng, 10, &mut res);
    assert!(res.is_empty());
}

#[test]
fn buffer_is_overwritten_on_reuse() {
    let mut rng = SmallRng::seed_from_u64(6);
    let mut res = vec![0u32; 8];
    for _ in 0..50 {
        random_order(&mut rng, 8, &mut res);
        check_distinct_below(&res, 8);
    }
}

#[test]
fn uniform_frequencies() {
    let mut rng = SmallRng::seed_from_u64(7);
    let n = 10u32;
    let k = 3usize;
    let runs = 20_000usize;
    let mut counts = vec![0usize; n as usize];
    let mut res = vec![0u32; k];
    for _ in 0..runs {
        random_order(&mut rng, n, &mut res);
        for &x in &res {
            counts[x as usize] += 1;
        }
    }
    let expected = (runs * k) as f64 / n as f64;
    let chi_square: f64 = counts
        .iter()
        .map(|&c| {
            let d = c as f64 - expected;
            d * d / expected
        })
        .sum();
    // Nine degrees of freedom: 27.88 is the 0.999 quantile.
    assert!(chi_square < 27.88, "chi-square {} with counts {:?}", chi_square, counts);
}

#[test]
fn first_position_is_uniform() {
    let mut rng = SmallRng::seed_from_u64(8);
    let n = 4u32;
    let runs = 8_000usize;
    let mut counts = vec![0usize; n as usize];
    let mut res = vec![0u32; 4];
    for _ in 0..runs {
        random_order(&mut rng, n, &mut res);
        counts[res[0] as usize] += 1;
    }
    for &c in &counts {
        assert!(c > 1_700 && c < 2_300, "counts {:?}", counts);
    }
}

#[test]
fn rejection_sampling_generates_distinct_values() {
    let mut rng = SmallRng::seed_from_u64(9);
    let mut out = vec![0u32; 20];
    RejectionSampling.generate(&mut rng, 25, &mut out);
    check_distinct_below(&out, 25);
}

#[test]
fn place_keeps_a_new_value() {
    let mut res = vec![4u32, 2, 9, 9];
    assert!(place(&mut res, 2, 7));
    assert_eq!(res, vec![4, 2, 7, 9]);
}

#[test]
fn place_rejects_a_value_already_taken() {
    let mut res = vec![4u32, 2, 9, 9];
    assert!(!place(&mut res, 2, 4));
    assert_eq!(res, vec![4, 2, 9, 9]);
    assert!(!place(&mut res, 2, 2));
    assert_eq!(res, vec![4, 2, 9, 9]);
}

#[test]
fn place_ignores_positions_from_its_own_on() {
    let mut res = vec![4u32, 2, 9, 5];
    assert!(place(&mut res, 2, 5));
    assert_eq!(res, vec![4, 2, 5, 5]);
    assert!(place(&mut res, 0, 2));
    assert_eq!(res, vec![2, 2, 5, 5]);
}
