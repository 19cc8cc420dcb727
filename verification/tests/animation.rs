use post_processing::animation::{turn, AngularRate, AnimatedObject, Rotation, Vec3Milli};
use post_processing::assets::{MaterialHandle, MeshHandle};

fn cube(rate_x: i32, rate_z: i32) -> AnimatedObject {
    AnimatedObject::new(
        MeshHandle { id: 0 },
        MaterialHandle { id: 0 },
        Vec3Milli { x: 0, y: 0, z: 1000 },
        Vec3Milli { x: 2000, y: 2000, z: 2000 },
        AngularRate { x: rate_x, z: rate_z },
    )
}

#[test]
fn new_object_has_not_turned() {
    let object = cube(550_000, 150_000);
    assert_eq!(object.transform.rotation, Rotation { x: 0, z: 0 });
    assert_eq!(object.transform.position, Vec3Milli { x: 0, y: 0, z: 1000 });
    assert_eq!(object.transform.scale, Vec3Milli { x: 2000, y: 2000, z: 2000 });
    assert_eq!(object.mesh, MeshHandle { id: 0 });
    assert_eq!(object.material, MaterialHandle { id: 0 });
    assert_eq!(object.rate, AngularRate { x: 550_000, z: 150_000 });
}

#[test]
fn turn_adds_rate_times_delta() {
    assert_eq!(turn(0, 550_000, 2_000_000), 1_100_000_000_000);
    assert_eq!(turn(7, 150_000, 1), 150_007);
    assert_eq!(turn(10, -3, 4), -2);
    assert_eq!(turn(-5, 0, u64::MAX), -5);
    assert_eq!(turn(123, 77, 0), 123);
}

#[test]
fn turn_stops_at_the_ends_of_the_range() {
    assert_eq!(turn(i128::MAX - 5, 1, 5), i128::MAX);
    assert_eq!(turn(i128::MAX - 5, 1, 6), i128::MAX);
    assert_eq!(turn(i128::MAX, i32::MAX, u64::MAX), i128::MAX);
    assert_eq!(turn(i128::MIN + 5, -1, 5), i128::MIN);
    assert_eq!(turn(i128::MIN + 5, -1, 6), i128::MIN);
    assert_eq!(turn(i128::MIN, i32::MIN, u64::MAX), i128::MIN);
    assert_eq!(
        turn(0, i32::MIN, u64::MAX),
        (i32::MIN as i128) * (u64::MAX as i128)
    );
    assert_eq!(
        turn(0, i32::MAX, u64::MAX),
        (i32::MAX as i128) * (u64::MAX as i128)
    );
}

#[test]
fn advance_turns_both_axes_and_nothing_else() {
    let mut object = cube(550_000, 150_000);
    let before = object;
    object.advance(16_667);
    assert_eq!(object.transform.rotation.x, 550_000 * 16_667);
    assert_eq!(object.transform.rotation.z, 150_000 * 16_667);
    assert_eq!(object.transform.position, before.transform.position);
    assert_eq!(object.transform.scale, before.transform.scale);
    assert_eq!(object.mesh, before.mesh);
    assert_eq!(object.material, before.material);
    assert_eq!(object.rate, before.rate);
}

#[test]
fn rotation_is_rate_times_total_time() {
    let deltas: Vec<u64> = vec![16_667, 33_333, 1, 0, 8_000, 250_000, 1_691_999];
    let total: u64 = deltas.iter().sum();
    assert_eq!(total, 2_000_000);
    let mut object = cube(550_000, 150_000);
    for delta in &deltas {
        object.advance(*delta);
    }
    assert_eq!(object.transform.rotation.x, 550_000 * 2_000_000);
    assert_eq!(object.transform.rotation.z, 150_000 * 2_000_000);
}

#[test]
fn rotation_does_not_depend_on_the_frame_rate() {
    let mut slow = cube(550_000, -150_000);
    for _ in 0..30 {
        slow.advance(33_333);
    }
    slow.advance(10);
    let mut fast = cube(550_000, -150_000);
    for _ in 0..240 {
        fast.advance(4_166);
    }
    fast.advance(160);
    let mut once = cube(550_000, -150_000);
    once.advance(1_000_000);
    assert_eq!(slow, once);
    assert_eq!(fast, once);
    assert_eq!(once.transform.rotation, Rotation { x: 550_000_000_000, z: -150_000_000_000 });
}

#[test]
fn replay_of_the_same_frames_gives_the_same_rotation() {
    let deltas: Vec<u64> = vec![5, 17_000, 16_000, 0, 999_999, 3];
    let mut first = cube(123_456, -654_321);
    let mut second = cube(123_456, -654_321);
    for delta in &deltas {
        first.advance(*delta);
    }
    for delta in &deltas {
        second.advance(*delta);
    }
    assert_eq!(first, second);
    assert_eq!(first.transform.rotation.x, 123_456 * 1_033_007);
    assert_eq!(first.transform.rotation.z, -654_321 * 1_033_007);
}

#[test]
fn zero_delta_leaves_the_object_as_it_is() {
    let mut object = cube(550_000, 150_000);
    object.advance(1_000);
    let before = object;
    object.advance(0);
    assert_eq!(object, before);
}

#[test]
fn two_seconds_at_the_usual_rates() {
    let mut object = cube(550_000, 150_000);
    for _ in 0..120 {
        object.advance(16_666);
    }
    object.advance(2_000_000 - 120 * 16_666);
    let x = object.transform.rotation.x as f64 * 1e-12;
    let z = object.transform.rotation.z as f64 * 1e-12;
    assert!((x - 1.10).abs() < 1e-9);
    assert!((z - 0.30).abs() < 1e-9);
    assert_eq!(object.transform.rotation, Rotation { x: 1_100_000_000_000, z: 300_000_000_000 });
}
