use gerstner_water::buoyancy::{Fraction, SubmersionTally};

fn tally_of(flags: &[bool]) -> SubmersionTally {
    let mut tally = SubmersionTally::new();
    for flag in flags {
        tally.record(*flag);
    }
    tally
}

#[test]
fn body_without_sample_points_has_fraction_zero() {
    let tally = SubmersionTally::new();
    assert_eq!(tally.total_points(), 0);
    assert_eq!(tally.submerged_points(), 0);
    let fraction = tally.fraction();
    assert_eq!(fraction, Fraction { numerator: 0, denominator: 1 });
    assert!(fraction.is_zero());
    assert!(!fraction.is_one());
}

#[test]
fn fraction_counts_submerged_points() {
    let tally = tally_of(&[true, false, true, true, false]);
    assert_eq!(tally.submerged_points(), 3);
    assert_eq!(tally.total_points(), 5);
    assert_eq!(tally.fraction(), Fraction { numerator: 3, denominator: 5 });
    let ratio = tally.fraction().numerator as f32 / tally.fraction().denominator as f32;
    assert_eq!(ratio, 0.6);
}

#[test]
fn fully_submerged_body_has_fraction_one() {
    let fraction = tally_of(&[true; 5]).fraction();
    assert_eq!(fraction, Fraction { numerator: 5, denominator: 5 });
    assert!(fraction.is_one());
    assert!(!fraction.is_zero());
}

#[test]
fn body_above_water_has_fraction_zero() {
    let fraction = tally_of(&[false; 5]).fraction();
    assert_eq!(fraction, Fraction { numerator: 0, denominator: 5 });
    assert!(fraction.is_zero());
    assert!(!fraction.is_one());
}

#[test]
fn fraction_stays_within_zero_and_one() {
    for bits in 0u32..256 {
        for len in 0usize..=8 {
            let flags: Vec<bool> = (0..len).map(|i| bits >> i & 1 == 1).collect();
            let fraction = tally_of(&flags).fraction();
            assert!(fraction.denominator > 0);
            assert!(fraction.numerator <= fraction.denominator);
            let ratio = fraction.numerator as f64 / fraction.denominator as f64;
            assert!((0.0..=1.0).contains(&ratio));
        }
    }
}

#[test]
fn recording_order_does_not_change_the_fraction() {
    let one = tally_of(&[true, false, false, true]).fraction();
    let other = tally_of(&[false, true, true, false]).fraction();
    assert_eq!(one, other);
}
