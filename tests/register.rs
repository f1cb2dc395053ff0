use rbiteopt::float_bits::FloatBits;
use rbiteopt::register::BestRegister;

fn fb(x: f64) -> FloatBits {
    FloatBits::from_bits(x.to_bits())
}

fn score_of(reg: &BestRegister<(f64, f64)>) -> f64 {
    f64::from_bits(reg.score().to_bits())
}

#[test]
fn seeded_holds_archetype() {
    let reg = BestRegister::seeded(fb(5.0), (5.0, 6.0));
    assert_eq!(score_of(&reg), 5.0);
    assert_eq!(*reg.candidate(), (5.0, 6.0));
}

#[test]
fn strictly_better_replaces_both() {
    let mut reg = BestRegister::seeded(fb(5.0), (5.0, 6.0));
    assert!(reg.offer(fb(0.0), (2.0, 8.0)));
    assert_eq!(score_of(&reg), 0.0);
    assert_eq!(reg.into_candidate(), (2.0, 8.0));
}

#[test]
fn equal_score_keeps_first() {
    let mut reg = BestRegister::seeded(fb(1.0), (1.0, 1.0));
    assert!(!reg.offer(fb(1.0), (2.0, 2.0)));
    assert_eq!(*reg.candidate(), (1.0, 1.0));
    let mut reg = BestRegister::seeded(fb(0.0), (1.0, 1.0));
    assert!(!reg.offer(fb(-0.0), (2.0, 2.0)));
    assert_eq!(*reg.candidate(), (1.0, 1.0));
}

#[test]
fn worse_or_nan_score_is_ignored() {
    let mut reg = BestRegister::seeded(fb(1.0), (1.0, 1.0));
    assert!(!reg.offer(fb(3.0), (3.0, 3.0)));
    assert!(!reg.offer(fb(f64::NAN), (4.0, 4.0)));
    assert_eq!(score_of(&reg), 1.0);
    assert_eq!(*reg.candidate(), (1.0, 1.0));
}

#[test]
fn nan_seed_is_never_replaced() {
    let mut reg = BestRegister::seeded(fb(f64::NAN), (1.0, 1.0));
    assert!(!reg.offer(fb(-1.0), (2.0, 2.0)));
    assert_eq!(*reg.candidate(), (1.0, 1.0));
}

#[test]
fn score_never_increases_over_offers() {
    // The archetype (5, 6) of |x - 2| + |y - 8| scores 5.
    let f = |x: f64, y: f64| (x - 2.0).abs() + (y - 8.0).abs();
    let mut reg = BestRegister::seeded(fb(f(5.0, 6.0)), (5.0, 6.0));
    let points = [(9.0, 9.0), (4.0, 7.0), (3.0, 8.0), (-10.0, 10.0), (2.0, 8.0), (2.5, 8.0)];
    let mut previous = score_of(&reg);
    for (x, y) in points.iter() {
        reg.offer(fb(f(*x, *y)), (*x, *y));
        let now = score_of(&reg);
        assert!(now <= previous);
        previous = now;
    }
    assert!(previous <= f(5.0, 6.0));
    assert_eq!(previous, 0.0);
    assert_eq!(reg.into_candidate(), (2.0, 8.0));
}

#[test]
fn no_offer_better_than_seed_keeps_seed() {
    let mut reg = BestRegister::seeded(fb(-7.0), "archetype");
    for s in [0.0, -7.0, 1.0e9, f64::INFINITY].iter() {
        reg.offer(fb(*s), "other");
    }
    assert_eq!(reg.into_candidate(), "archetype");
}
