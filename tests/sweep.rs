use sample_bench::sweep::{MAX_LATENCY_NANOS, MAX_SIZE};
use sample_bench::{advance, Counter, Sweep};

#[test]
fn ten_advances_give_fibonacci() {
    let mut p = Counter { a: 1, b: 1 };
    let mut seen = vec![p.a, p.b];
    for _ in 0..9 {
        p = advance(p);
        seen.push(p.b);
    }
    assert_eq!(seen, vec![1, 1, 2, 3, 5, 8, 13, 21, 34, 55, 89]);
    let q = advance(p);
    assert_eq!(q, Counter { a: 89, b: 144 });
}

#[test]
fn sweep_starts_at_one_one() {
    let s = Sweep::new();
    assert_eq!((s.n(), s.k()), (1, 1));
}

#[test]
fn fast_pair_moves_n_on() {
    let s = Sweep::new().next(10).unwrap();
    assert_eq!(s.kk, Counter { a: 1, b: 1 });
    assert_eq!(s.nn, Counter { a: 1, b: 2 });
    let s = s.next(MAX_LATENCY_NANOS).unwrap();
    assert_eq!((s.n(), s.k()), (3, 1));
}

#[test]
fn slow_first_pair_ends_sweep() {
    assert_eq!(Sweep::new().next(MAX_LATENCY_NANOS + 1), None);
    let s = Sweep { kk: Counter { a: 8, b: 13 }, nn: Counter { a: 8, b: 13 } };
    assert_eq!(s.next(u64::MAX), None);
}

#[test]
fn slow_later_pair_moves_k_on() {
    let s = Sweep { kk: Counter { a: 1, b: 2 }, nn: Counter { a: 5, b: 8 } };
    let t = s.next(MAX_LATENCY_NANOS + 1).unwrap();
    assert_eq!(t.kk, Counter { a: 2, b: 3 });
    assert_eq!(t.nn, Counter { a: 2, b: 3 });
}

#[test]
fn n_reaching_the_ceiling_moves_k_on() {
    let s = Sweep {
        kk: Counter { a: 2, b: 3 },
        nn: Counter { a: 433_494_437, b: 701_408_733 },
    };
    let t = s.next(0).unwrap();
    assert_eq!((t.n(), t.k()), (5, 5));
}

#[test]
fn k_reaching_the_ceiling_ends_sweep() {
    let s = Sweep {
        kk: Counter { a: 433_494_437, b: 701_408_733 },
        nn: Counter { a: 433_494_437, b: 701_408_733 },
    };
    assert_eq!(s.next(0), None);
    assert!(701_408_733 < MAX_SIZE && 433_494_437 + 701_408_733 >= MAX_SIZE);
}

/// Runs a whole sweep against a latency model and lists the pairs timed.
fn run(latency: impl Fn(u64, u64) -> u64) -> Vec<(u64, u64)> {
    let mut timed = Vec::new();
    let mut state = Some(Sweep::new());
    while let Some(s) = state {
        timed.push((s.n(), s.k()));
        state = s.next(latency(s.n(), s.k()));
    }
    timed
}

#[test]
fn stub_slow_everywhere_emits_one_record() {
    assert_eq!(run(|n, k| 4_000_000_000 + n + k), vec![(1, 1)]);
}

#[test]
fn stub_slow_beyond_k_two() {
    // k = 1 is fast for every n, k = 2 is slow from the start.
    let timed = run(|_, k| if k >= 2 { MAX_LATENCY_NANOS + 1 } else { 1 });
    assert_eq!(timed.iter().filter(|p| p.1 == 1).count(), 43);
    assert_eq!(timed.last(), Some(&(2, 2)));
    assert!(timed.iter().all(|&(n, k)| k <= n && n < MAX_SIZE));
}
