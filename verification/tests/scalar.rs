use soulgraph::scalar::Scalar;

fn scalar(x: f32) -> Scalar {
    Scalar::from_bits(x.to_bits())
}

fn as_f32(s: Scalar) -> f32 {
    f32::from_bits(s.to_bits())
}

fn samples() -> Vec<f32> {
    vec![
        0.0,
        -0.0,
        f32::MIN_POSITIVE,
        -f32::MIN_POSITIVE,
        1.0e-45,
        -1.0e-45,
        0.1,
        0.5,
        0.8,
        0.9,
        0.95,
        0.99999994,
        1.0,
        1.0000001,
        1.5,
        2.0,
        -0.5,
        -0.99999994,
        -1.0,
        -1.0000001,
        -1.5,
        3.4028235e38,
        -3.4028235e38,
        f32::INFINITY,
        f32::NEG_INFINITY,
        f32::NAN,
        -f32::NAN,
    ]
}

#[test]
fn named_numbers_are_what_they_are_called() {
    assert_eq!(as_f32(Scalar::zero()), 0.0);
    assert_eq!(Scalar::zero().to_bits(), 0);
    assert_eq!(as_f32(Scalar::half()), 0.5);
    assert_eq!(as_f32(Scalar::one()), 1.0);
    assert_eq!(as_f32(Scalar::minus_one()), -1.0);
}

#[test]
fn nan_is_told_as_the_machine_tells_it() {
    for x in samples() {
        assert_eq!(scalar(x).nan(), x.is_nan(), "{x}");
    }
}

#[test]
fn within_agrees_with_the_comparison_of_the_machine() {
    let bounds = [(0.0f32, 1.0f32), (-1.0, 1.0), (-0.0, 0.5), (0.25, 0.75)];
    for (lowest, highest) in bounds {
        for x in samples() {
            assert_eq!(
                scalar(x).is_within(scalar(lowest), scalar(highest)),
                (lowest..=highest).contains(&x),
                "{lowest} <= {x} <= {highest}"
            );
        }
    }
}

#[test]
fn clamp_agrees_with_the_clamp_of_the_machine() {
    let bounds = [(0.0f32, 1.0f32), (-1.0, 1.0), (0.25, 0.75), (-0.0, 0.0)];
    for (lowest, highest) in bounds {
        for x in samples() {
            let ours = scalar(x).clamp(scalar(lowest), scalar(highest));
            let theirs = x.clamp(lowest, highest);
            if theirs.is_nan() {
                assert!(ours.nan());
                assert_eq!(ours.to_bits(), x.to_bits());
            } else {
                assert_eq!(ours.to_bits(), theirs.to_bits(), "{x} into {lowest}..{highest}");
            }
        }
    }
}

#[test]
fn clamp_of_one_and_a_half_is_exactly_one() {
    let clamped = scalar(1.5).clamp(Scalar::zero(), Scalar::one());
    assert_eq!(clamped.to_bits(), 0x3f80_0000);
    let clamped = scalar(-0.5).clamp(Scalar::zero(), Scalar::one());
    assert_eq!(clamped.to_bits(), 0);
}

#[test]
fn equality_is_that_of_the_machine() {
    for x in samples() {
        for y in samples() {
            assert_eq!(scalar(x) == scalar(y), x == y, "{x} == {y}");
        }
    }
}

#[test]
fn whole_numbers_up_to_two_to_the_24_are_exact() {
    let mut wholes: Vec<i64> = vec![0, 1, -1, 2, -2, 3, 7, 8, 255, 256, 1000, -1000];
    let mut power: i64 = 1;
    while power <= 0x100_0000 {
        wholes.push(power);
        wholes.push(-power);
        wholes.push(power - 1);
        wholes.push(1 - power);
        if power + 1 <= 0x100_0000 {
            wholes.push(power + 1);
            wholes.push(-power - 1);
        }
        power *= 2;
    }
    wholes.push(12_345_678);
    wholes.push(-16_777_215);
    for i in wholes {
        let ours = Scalar::from_integer(i).unwrap();
        assert_eq!(ours.to_bits(), (i as f32).to_bits(), "{i}");
        assert_eq!(as_f32(ours) as i64, i);
    }
}

#[test]
fn whole_numbers_beyond_two_to_the_24_have_no_exact_form_here() {
    for i in [0x100_0001i64, -0x100_0001, 1 << 40, i64::MAX, i64::MIN] {
        assert!(Scalar::from_integer(i).is_none(), "{i}");
    }
}

#[test]
fn bits_go_in_and_out_unchanged() {
    for bits in [0u32, 1, 0x3f80_0000, 0x7fc0_0000, 0x8000_0000, u32::MAX] {
        assert_eq!(Scalar::from_bits(bits).to_bits(), bits);
    }
}
