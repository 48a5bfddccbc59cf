use frame_core::camera::{clamp_pitch, PITCH_LIMIT, SENSITIVITY_PER_HUNDRED, SPEED};
use frame_core::single::Single;

fn clamp(pitch: f32) -> f32 {
    f32::from_bits(clamp_pitch(Single { bits: pitch.to_bits() }).bits)
}

#[test]
fn the_fixed_numbers_of_the_camera() {
    assert_eq!(PITCH_LIMIT, 89);
    assert_eq!(SPEED, 10);
    assert_eq!(SENSITIVITY_PER_HUNDRED, 3);
}

#[test]
fn a_pitch_within_the_range_is_kept() {
    for pitch in [0.0f32, -0.0, 1.0, -1.0, 45.5, -45.5, 88.999, -88.999, 89.0, -89.0, 1.0e-40] {
        assert_eq!(clamp(pitch).to_bits(), pitch.to_bits());
    }
}

#[test]
fn a_pitch_above_the_range_becomes_the_upper_limit() {
    for pitch in [89.00001f32, 90.0, 91.7, 180.0, 1.0e10, f32::MAX, f32::INFINITY] {
        assert_eq!(clamp(pitch), 89.0);
    }
}

#[test]
fn a_pitch_below_the_range_becomes_the_lower_limit() {
    for pitch in [-89.00001f32, -90.0, -91.7, -180.0, -1.0e10, f32::MIN, f32::NEG_INFINITY] {
        assert_eq!(clamp(pitch), -89.0);
    }
}

#[test]
fn a_pitch_that_is_not_a_number_stays_as_it_is() {
    for bits in [0x7FC0_0000u32, 0xFFC0_0000, 0x7F80_0001, 0xFFFF_FFFF] {
        assert_eq!(clamp_pitch(Single { bits }).bits, bits);
    }
}

#[test]
fn clamping_agrees_with_the_machine() {
    let mut state: u32 = 0x9E37_79B9;
    for _ in 0..20_000 {
        state ^= state << 13;
        state ^= state >> 17;
        state ^= state << 5;
        let pitch = f32::from_bits(state);
        let expected = if pitch > 89.0 {
            89.0
        } else if pitch < -89.0 {
            -89.0
        } else {
            pitch
        };
        assert_eq!(clamp(pitch).to_bits(), expected.to_bits());
    }
}

#[test]
fn clamping_twice_is_clamping_once() {
    for pitch in [0.0f32, 12.0, 89.0, 89.5, -89.5, 1000.0, -1000.0, f32::INFINITY] {
        assert_eq!(clamp(clamp(pitch)).to_bits(), clamp(pitch).to_bits());
    }
}

#[test]
fn pointer_motion_to_the_side_turns_the_camera_without_tilting_it() {
    let sensitivity = 0.01f32 * SENSITIVITY_PER_HUNDRED as f32;
    let delta = (100.0f32, 0.0f32);
    let (pitch_before, yaw_before) = (0.0f32, 0.0f32);
    let up_before = pitch_before.to_radians().sin();

    let pitch = clamp(pitch_before + delta.1 * sensitivity);
    let yaw = yaw_before - delta.0 * sensitivity;

    assert!((yaw - (yaw_before - 3.0)).abs() < 1e-5);
    assert_eq!(pitch, pitch_before);
    let forward = [
        yaw.to_radians().cos() * pitch.to_radians().cos(),
        pitch.to_radians().sin(),
        yaw.to_radians().sin() * pitch.to_radians().cos(),
    ];
    assert_eq!(forward[1], up_before);
    assert!((forward[0] - 1.0).abs() > 1e-4);
    let length = (forward[0] * forward[0] + forward[1] * forward[1] + forward[2] * forward[2]).sqrt();
    assert!((length - 1.0).abs() < 1e-6);
}

#[test]
fn pointer_motion_cannot_tilt_the_camera_past_the_limit() {
    let sensitivity = 0.01f32 * SENSITIVITY_PER_HUNDRED as f32;
    let mut pitch = 0.0f32;
    for _ in 0..100 {
        pitch = clamp(pitch + 1000.0 * sensitivity);
        assert!(pitch <= 89.0);
    }
    assert_eq!(pitch, 89.0);
    for _ in 0..100 {
        pitch = clamp(pitch - 1.0e30 * sensitivity);
        assert!(pitch >= -89.0);
    }
    assert_eq!(pitch, -89.0);
}
