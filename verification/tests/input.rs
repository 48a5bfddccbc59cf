use frame_core::input::{HeldKeys, KeyCode, Movement};

const MOVEMENT_KEYS: [KeyCode; 6] = [
    KeyCode::KeyW,
    KeyCode::KeyS,
    KeyCode::KeyA,
    KeyCode::KeyD,
    KeyCode::Space,
    KeyCode::ShiftLeft,
];

fn movement_of(keys: &[KeyCode]) -> Movement {
    let mut held = HeldKeys::new();
    for key in keys {
        held.insert(*key);
    }
    held.movement()
}

#[test]
fn forward_key_moves_against_the_view() {
    let mut held = HeldKeys::new();
    assert!(held.insert(KeyCode::KeyW));
    let net = held.movement();
    assert_eq!((net.along, net.across, net.up), (-1, 0, 0));
}

#[test]
fn each_key_has_its_own_contribution() {
    assert_eq!(movement_of(&[KeyCode::KeyW]), Movement { along: -1, across: 0, up: 0 });
    assert_eq!(movement_of(&[KeyCode::KeyS]), Movement { along: 1, across: 0, up: 0 });
    assert_eq!(movement_of(&[KeyCode::KeyA]), Movement { along: 0, across: 1, up: 0 });
    assert_eq!(movement_of(&[KeyCode::KeyD]), Movement { along: 0, across: -1, up: 0 });
    assert_eq!(movement_of(&[KeyCode::Space]), Movement { along: 0, across: 0, up: 1 });
    assert_eq!(movement_of(&[KeyCode::ShiftLeft]), Movement { along: 0, across: 0, up: -1 });
    assert_eq!(movement_of(&[KeyCode::Other]), Movement { along: 0, across: 0, up: 0 });
    assert_eq!(movement_of(&[KeyCode::Escape]), Movement { along: 0, across: 0, up: 0 });
    assert_eq!(movement_of(&[KeyCode::KeyF]), Movement { along: 0, across: 0, up: 0 });
}

#[test]
fn no_key_held_means_no_movement() {
    let held = HeldKeys::new();
    assert_eq!(held.len(), 0);
    assert_eq!(held.movement(), Movement { along: 0, across: 0, up: 0 });
}

#[test]
fn opposite_keys_cancel() {
    assert_eq!(
        movement_of(&[KeyCode::KeyW, KeyCode::KeyS]),
        Movement { along: 0, across: 0, up: 0 }
    );
    assert_eq!(
        movement_of(&[KeyCode::KeyA, KeyCode::KeyD, KeyCode::Space]),
        Movement { along: 0, across: 0, up: 1 }
    );
    assert_eq!(
        movement_of(&[KeyCode::Space, KeyCode::ShiftLeft, KeyCode::KeyD]),
        Movement { along: 0, across: -1, up: 0 }
    );
}

#[test]
fn movement_is_the_sum_of_the_keys_contributions() {
    for subset in 0u32..64 {
        let mut keys = Vec::new();
        let mut sum = (0i32, 0i32, 0i32);
        for (bit, key) in MOVEMENT_KEYS.iter().enumerate() {
            if subset & (1 << bit) != 0 {
                keys.push(*key);
                let one = movement_of(&[*key]);
                sum.0 += one.along as i32;
                sum.1 += one.across as i32;
                sum.2 += one.up as i32;
            }
        }
        let net = movement_of(&keys);
        assert_eq!((net.along as i32, net.across as i32, net.up as i32), sum);
    }
}

#[test]
fn order_of_keys_does_not_matter() {
    let forward = [KeyCode::KeyW, KeyCode::KeyA, KeyCode::Space, KeyCode::Other];
    let backward = [KeyCode::Other, KeyCode::Space, KeyCode::KeyA, KeyCode::KeyW];
    let shuffled = [KeyCode::Space, KeyCode::KeyW, KeyCode::Other, KeyCode::KeyA];
    let expected = Movement { along: -1, across: 1, up: 1 };
    assert_eq!(movement_of(&forward), expected);
    assert_eq!(movement_of(&backward), expected);
    assert_eq!(movement_of(&shuffled), expected);
}

#[test]
fn a_key_is_held_once_however_often_it_goes_down() {
    let mut held = HeldKeys::new();
    assert!(held.insert(KeyCode::KeyS));
    assert!(!held.insert(KeyCode::KeyS));
    assert!(!held.insert(KeyCode::KeyS));
    assert_eq!(held.len(), 1);
    assert_eq!(held.movement(), Movement { along: 1, across: 0, up: 0 });
}

#[test]
fn a_released_key_is_held_no_longer() {
    let mut held = HeldKeys::new();
    held.insert(KeyCode::KeyA);
    held.insert(KeyCode::KeyW);
    held.insert(KeyCode::Space);
    assert!(held.contains(KeyCode::KeyW));
    assert!(held.remove(KeyCode::KeyW));
    assert!(!held.contains(KeyCode::KeyW));
    assert!(!held.remove(KeyCode::KeyW));
    assert!(held.contains(KeyCode::KeyA));
    assert!(held.contains(KeyCode::Space));
    assert_eq!(held.len(), 2);
    assert_eq!(held.movement(), Movement { along: 0, across: 1, up: 1 });
}

#[test]
fn releasing_a_key_that_is_not_held_changes_nothing() {
    let mut held = HeldKeys::new();
    held.insert(KeyCode::KeyD);
    assert!(!held.remove(KeyCode::KeyA));
    assert_eq!(held.len(), 1);
    assert_eq!(held.movement(), Movement { along: 0, across: -1, up: 0 });
}

#[test]
fn holding_forward_for_a_tenth_of_a_second_moves_one_unit() {
    let mut position = [0.0f32, 1.6, -5.0];
    let forward = [0.0f32, 0.0, 1.0];
    let elapsed = 0.1f32;
    let speed = frame_core::camera::SPEED as f32;
    assert_eq!(speed, 10.0);

    let mut held = HeldKeys::new();
    held.insert(KeyCode::KeyW);
    let net = held.movement();

    let step = elapsed * speed;
    let length = (forward[0] * forward[0] + forward[2] * forward[2]).sqrt();
    let along = [forward[0] / length * step, forward[2] / length * step];
    position[0] += net.along as f32 * along[0] + net.across as f32 * along[1];
    position[2] += net.along as f32 * along[1] - net.across as f32 * along[0];
    position[1] += net.up as f32 * step;

    assert_eq!(position[0], 0.0);
    assert_eq!(position[1], 1.6);
    assert!((position[2] - (-6.0)).abs() < 1e-6);
}
