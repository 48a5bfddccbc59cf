use frame_core::single::Single;

fn of(value: f32) -> Single {
    Single { bits: value.to_bits() }
}

#[test]
fn conversion_of_small_whole_numbers_is_exact() {
    assert_eq!(Single::from_u32(0).bits, 0);
    assert_eq!(Single::from_u32(1).bits, 0x3F80_0000);
    assert_eq!(Single::from_u32(2).bits, 0x4000_0000);
    assert_eq!(Single::from_u32(3).bits, 0x4040_0000);
    assert_eq!(Single::from_u32(10).bits, 0x4120_0000);
    assert_eq!(Single::from_u32(89).bits, 0x42B2_0000);
    assert_eq!(Single::from_u32(1920).bits, 0x44F0_0000);
    assert_eq!(Single::from_u32(16_777_215).bits, 0x4B7F_FFFF);
    assert_eq!(Single::from_u32(16_777_216).bits, 0x4B80_0000);
}

#[test]
fn conversion_rounds_halfway_cases_to_even() {
    // 2^24 + 1 lies halfway between 2^24 and 2^24 + 2.
    assert_eq!(Single::from_u32(16_777_217).bits, 0x4B80_0000);
    assert_eq!(Single::from_u32(16_777_218).bits, 0x4B80_0001);
    // 2^24 + 3 lies halfway between 2^24 + 2 and 2^24 + 4.
    assert_eq!(Single::from_u32(16_777_219).bits, 0x4B80_0002);
    assert_eq!(Single::from_u32(16_777_220).bits, 0x4B80_0002);
}

#[test]
fn conversion_carries_into_the_exponent() {
    // 2^25 - 1 rounds up to 2^25.
    assert_eq!(Single::from_u32(33_554_431).bits, 0x4C00_0000);
    assert_eq!(Single::from_u32(u32::MAX).bits, 0x4F80_0000);
    assert_eq!(Single::from_u32(u32::MAX - 127).bits, 0x4F80_0000);
    assert_eq!(Single::from_u32(u32::MAX - 128).bits, 0x4F7F_FFFF);
}

#[test]
fn conversion_agrees_with_the_machine() {
    let mut samples: Vec<u32> = vec![0, 1, 2, 3, 255, 256, 640, 800, 1080, 4096, u32::MAX];
    for shift in 0..32 {
        let power = 1u32 << shift;
        samples.push(power);
        samples.push(power - 1);
        samples.push(power.wrapping_add(1));
        samples.push(power | (power >> 1));
        samples.push(power | (power >> 24));
        samples.push(power | (power >> 25));
        samples.push(power | (power >> 24) | (power >> 25));
        samples.push(power | (power >> 23) | (power >> 24));
    }
    let mut state: u32 = 0x2545_F491;
    for _ in 0..20_000 {
        state ^= state << 13;
        state ^= state >> 17;
        state ^= state << 5;
        samples.push(state);
        samples.push(state >> (state % 32));
    }
    for x in samples {
        assert_eq!(Single::from_u32(x).bits, (x as f32).to_bits(), "converting {}", x);
    }
}

#[test]
fn comparison_agrees_with_the_machine() {
    let values = [
        0.0f32,
        -0.0,
        1.0,
        -1.0,
        88.999,
        89.0,
        89.001,
        -89.0,
        -89.001,
        1.0e-40,
        -1.0e-40,
        f32::MIN_POSITIVE,
        f32::MAX,
        f32::MIN,
        f32::INFINITY,
        f32::NEG_INFINITY,
        f32::NAN,
        -f32::NAN,
        f32::from_bits(0x7F80_0001),
        f32::from_bits(0xFFFF_FFFF),
    ];
    for a in values {
        for b in values {
            assert_eq!(of(a).lt(of(b)), a < b, "{:?} < {:?}", a, b);
            assert_eq!(of(a).gt(of(b)), a > b, "{:?} > {:?}", a, b);
        }
    }
}

#[test]
fn zeros_of_either_sign_compare_equal() {
    assert!(!of(0.0).lt(of(-0.0)));
    assert!(!of(-0.0).lt(of(0.0)));
    assert!(!of(0.0).gt(of(-0.0)));
}

#[test]
fn not_a_number_is_told_apart_from_infinity() {
    assert!(!of(f32::INFINITY).not_a_number());
    assert!(!of(f32::NEG_INFINITY).not_a_number());
    assert!(!of(0.0).not_a_number());
    assert!(!of(f32::MAX).not_a_number());
    assert!(of(f32::NAN).not_a_number());
    assert!(Single { bits: 0x7F80_0001 }.not_a_number());
    assert!(Single { bits: 0xFF80_0001 }.not_a_number());
    assert!(Single { bits: 0xFFFF_FFFF }.not_a_number());
}

#[test]
fn negation_flips_the_sign_only() {
    for value in [0.0f32, 1.0, -1.0, 89.0, -0.25, f32::INFINITY, f32::MAX] {
        assert_eq!(of(value).negated().bits, (-value).to_bits());
        assert_eq!(of(value).negated().negated(), of(value));
    }
    assert_eq!(Single { bits: 0 }.negated().bits, 0x8000_0000);
    assert_eq!(Single { bits: 0x8000_0000 }.negated().bits, 0);
}
