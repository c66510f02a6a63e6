use interpolation_search::Duration;
use interpolation_search::Fraction;
use interpolation_search::Scalable;

fn frac_f32(f: Fraction) -> f32 {
    f.num as f32 / f.den as f32
}

#[test]
fn test_integer_fractions() {
    assert_eq!(frac_f32(5_usize.fraction_of(&10)), 0.5);
    assert_eq!(frac_f32(0_usize.fraction_of(&5)), 0.0);
    assert_eq!(frac_f32(5_usize.fraction_of(&5)), 1.0);
    assert_eq!(5_usize.fraction_of(&0), Fraction::half());
    assert_eq!(0_usize.fraction_of(&0), Fraction::half());
}

#[test]
fn test_duration_fractions() {
    assert_eq!(
        frac_f32(Duration::from_millis(500).fraction_of(&Duration::from_secs(1))),
        0.5
    );
    assert_eq!(
        frac_f32(Duration::zero().fraction_of(&Duration::from_secs(1))),
        0.0
    );
    assert_eq!(
        Duration::from_secs(1).fraction_of(&Duration::zero()),
        Fraction::half()
    );
    assert_eq!(
        Duration::zero().fraction_of(&Duration::zero()),
        Fraction::half()
    );
}

#[test]
fn test_raw_fraction_can_exceed_one() {
    // The ratio is raw: a distance larger than the divisor gives a fraction
    // above one, left for normalization to clamp.
    let f = 10_usize.fraction_of(&4);
    assert_eq!(f, Fraction::new(10, 4));
    assert_eq!(frac_f32(f), 2.5);
}

#[test]
fn test_byte_vector_fractions() {
    // One position: the fraction is the leading byte ratio.
    let half = vec![1u8].fraction_of(&vec![2u8]);
    assert_eq!(frac_f32(half), 0.5);
    // The second position weighs one base unit less.
    let step = vec![0u8, 1].fraction_of(&vec![1u8, 2]);
    assert_eq!(step, Fraction::new(65535 / 2, 65535 * 65535));
    // A zero divisor byte contributes half its weight.
    let degenerate = vec![3u8].fraction_of(&vec![0u8]);
    assert_eq!(degenerate, Fraction::new(65535 * 65535 / 2, 65535 * 65535));
    // Positions past the second are below the denominator's resolution.
    let tail = vec![0u8, 0, 0, 200].fraction_of(&vec![1u8, 1, 1, 200]);
    assert_eq!(frac_f32(tail), 0.0);
}
