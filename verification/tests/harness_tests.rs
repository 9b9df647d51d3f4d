use binsearch::harness::run_test;
use binsearch::random::generate_random_input;
use binsearch::sorting::sort_u32;

#[test]
fn generate_is_deterministic() {
    for seed in [0u64, 1, 42, 0xdead_beef, u64::MAX] {
        let (s1, t1) = generate_random_input(seed);
        let (s2, t2) = generate_random_input(seed);
        assert_eq!(s1, s2);
        assert_eq!(t1, t2);
    }
}

#[test]
fn generate_respects_bounds_and_order() {
    for seed in 0u64..64 {
        let (s, t) = generate_random_input(seed);
        assert!(s.len() < 8);
        assert!(t < 8);
        for &x in &s {
            assert!(x < 8);
        }
        for w in s.windows(2) {
            assert!(w[0] <= w[1]);
        }
    }
}

#[test]
fn generate_draws_vary_with_seed() {
    // A draw that ignored the generator state entirely would make every
    // seed produce the same input; a spread of seeds must disagree.
    let outputs: Vec<(Vec<u32>, u32)> =
        (0u64..32).map(generate_random_input).collect();
    let first = &outputs[0];
    assert!(outputs.iter().any(|o| o != first));
}

#[test]
fn run_test_always_passes() {
    for seed in 0u64..256 {
        let outcome = run_test(seed);
        assert!(outcome.pass);
        assert_eq!(outcome.seed, seed);
    }
}

#[test]
fn run_test_is_idempotent() {
    for seed in [0u64, 7, 1234, 0xfeed_f00d] {
        let a = run_test(seed);
        let b = run_test(seed);
        assert_eq!(a.pass, b.pass);
        assert_eq!(a.sequence, b.sequence);
        assert_eq!(a.target, b.target);
        assert_eq!(a.expected, b.expected);
        assert_eq!(a.actual, b.actual);
    }
}

#[test]
fn run_test_oracle_matches_linear_scan() {
    for seed in 0u64..64 {
        let outcome = run_test(seed);
        let expected = outcome.sequence.iter().position(|&v| v == outcome.target);
        assert_eq!(outcome.expected, expected);
        match outcome.actual {
            Some(i) => assert_eq!(outcome.sequence[i], outcome.target),
            None => assert!(expected.is_none()),
        }
    }
}

#[test]
fn sort_orders_and_keeps_contents() {
    let mut v: Vec<u32> = vec![5, 3, 3, 0, 7, 3, 1];
    sort_u32(&mut v);
    assert_eq!(v, vec![0, 1, 3, 3, 3, 5, 7]);

    let mut empty: Vec<u32> = vec![];
    sort_u32(&mut empty);
    assert!(empty.is_empty());

    let mut dup: Vec<u32> = vec![2, 2, 2];
    sort_u32(&mut dup);
    assert_eq!(dup, vec![2, 2, 2]);
}
