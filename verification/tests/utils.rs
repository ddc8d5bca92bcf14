use micropolis_core::utils::random::MicropolisRandom;
use micropolis_core::utils::{clamp, random_in_range, Percentage};

fn value(p: &Percentage) -> f64 {
    p.percent() as f64 / 100f64
}

#[test]
fn test_percentage_struct() {
    assert_eq!(value(&Percentage::from_integer(0).unwrap()), 0f64);
    assert_eq!(value(&Percentage::from_integer(29).unwrap()), 0.29f64);
    assert_eq!(value(&Percentage::from_integer(100).unwrap()), 1f64);
    assert_eq!(
        Percentage::from_hundredths(79),
        Percentage::from_integer(79).unwrap()
    );
    assert_eq!(Percentage::from_integer(103), None);
}

#[test]
fn percentage_increment_adds_one() {
    let mut p = Percentage::from_integer(42).unwrap();
    p.increment();
    assert_eq!(p.percent(), 43);
}

#[test]
fn clamp_bounds_values() {
    assert_eq!(clamp(5, 0, 10), 5);
    assert_eq!(clamp(-5, 0, 10), 0);
    assert_eq!(clamp(15, 0, 10), 10);
}

#[test]
fn random_generator_is_deterministic() {
    let mut a = MicropolisRandom::from_seed(1234);
    let mut b = MicropolisRandom::from_seed(1234);
    for _ in 0..100 {
        assert_eq!(a.get_random(50), b.get_random(50));
    }
}

#[test]
fn random_values_stay_in_range() {
    let mut rng = MicropolisRandom::from_seed(42);
    for _ in 0..1000 {
        let r = rng.get_random(7);
        assert!(-7 <= r && r <= 7);
        let e = rng.get_e_random(7);
        assert!(-7 <= e && e <= 7);
        let v = random_in_range(&mut rng, 3, 9);
        assert!(3 <= v && v <= 9);
    }
}
