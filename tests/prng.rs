use snake_os::prng::PseudoRandomNumberGenerator;

fn step(seed: u64) -> u64 {
    ((1664525u128 * seed as u128 + 1013904223u128) % (1u128 << 32)) as u64
}

#[test]
fn first_output_from_seed_42() {
    let mut g = PseudoRandomNumberGenerator::new(42);
    assert_eq!(g.next(), 1083814273);
    assert_eq!(g.next(), step(1083814273));
}

#[test]
fn same_seed_same_outputs() {
    let mut a = PseudoRandomNumberGenerator::new(42);
    let mut b = PseudoRandomNumberGenerator::new(42);
    for _ in 0..100 {
        assert_eq!(a.next(), b.next());
    }
}

#[test]
fn thousand_outputs_vary_and_stay_below_modulus() {
    let mut g = PseudoRandomNumberGenerator::new(42);
    let first = g.next();
    let mut all_same = true;
    for _ in 1..1000 {
        let v = g.next();
        assert!(v < (1u64 << 32));
        if v != first {
            all_same = false;
        }
    }
    assert!(!all_same);
}

#[test]
fn consecutive_outputs_differ() {
    let mut g = PseudoRandomNumberGenerator::new(0);
    let mut prev = g.next();
    for _ in 0..1000 {
        let v = g.next();
        assert_ne!(v, prev);
        prev = v;
    }
}

#[test]
fn large_seed_is_reduced() {
    let mut g = PseudoRandomNumberGenerator::new(u64::MAX);
    let v = g.next();
    assert_eq!(v, step(u64::MAX));
    assert!(v < (1u64 << 32));
}
