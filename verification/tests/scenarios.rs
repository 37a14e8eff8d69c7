//! End-to-end scenarios against the facade.

use segway_physics::joint::Joint;
use segway_physics::linalg::qmul;
use segway_physics::linalg::Vec3Fx;
use segway_physics::joint::axis_angle;
use segway_physics::physics::Parts;
use segway_physics::physics::PhysicsWorld;
use segway_physics::errors::PhysicsError;
use segway_physics::SCALE;

fn left_wheel_velocity(w: &PhysicsWorld) -> i64 {
    match w.part_joint(Parts::LEFT_WHEEL) {
        Joint::Revolute(rs) => rs.velocity,
        _ => panic!("left wheel must be revolute"),
    }
}

fn right_wheel_velocity(w: &PhysicsWorld) -> i64 {
    match w.part_joint(Parts::RIGHT_WHEEL) {
        Joint::Revolute(rs) => rs.velocity,
        _ => panic!("right wheel must be revolute"),
    }
}

#[test]
fn gravity_drop_one_step() {
    // Default topology, one sixtieth of a second, one step under gravity
    // alone: the base must fall measurably, and each wheel must stay
    // offset from the base by the configured 0.3 shift in y.
    let mut w = PhysicsWorld::new();
    w.set_timestep(16_666).unwrap();
    let y0 = w.get_part_position(Parts::BASE).y;
    w.step();
    let y1 = w.get_part_position(Parts::BASE).y;
    assert!(y1 < y0, "base must fall under gravity: {y0} -> {y1}");
    assert!(y0 - y1 > 1_000, "the drop must be measurable");
    let base_y = w.get_part_position(Parts::BASE).y;
    let left_y = w.get_part_position(Parts::LEFT_WHEEL).y;
    let right_y = w.get_part_position(Parts::RIGHT_WHEEL).y;
    assert!((base_y - left_y - 300_000).abs() <= 2);
    assert!((base_y - right_y - 300_000).abs() <= 2);
}

#[test]
fn left_motor_converges_right_stays() {
    // Drive the left wheel toward 5 rad/s with a generous torque bound;
    // after a hundred steps it must sit at the target and the untouched
    // right wheel must stay at rest.
    let mut w = PhysicsWorld::new();
    w.set_timestep(16_666).unwrap();
    w.set_left_motor_target_speed(5_000_000);
    w.set_max_left_motor_torque(100_000_000);
    for _ in 0..100 {
        w.step();
    }
    let lv = left_wheel_velocity(&w);
    assert!((lv - 5_000_000).abs() <= 1_000, "left wheel velocity {lv}");
    let rv = right_wheel_velocity(&w);
    assert!(rv.abs() <= 1_000, "right wheel velocity {rv}");
}

#[test]
fn zero_torque_motor_changes_nothing() {
    // A zero torque bound with an ambitious target must leave the wheel's
    // angular velocity untouched.
    let mut w = PhysicsWorld::new();
    w.set_timestep(16_666).unwrap();
    w.set_left_motor_target_speed(5_000_000);
    // the torque bound stays at its initial zero
    w.step();
    assert_eq!(left_wheel_velocity(&w), 0);
}

#[test]
fn negative_torque_bound_clamps_to_zero() {
    let mut w = PhysicsWorld::new();
    w.set_left_motor_target_speed(5_000_000);
    w.set_max_left_motor_torque(-50_000_000);
    w.step();
    assert_eq!(left_wheel_velocity(&w), 0);
    match w.part_joint(Parts::LEFT_WHEEL) {
        Joint::Revolute(rs) => assert_eq!(rs.motor.max_torque, 0),
        _ => panic!("left wheel must be revolute"),
    }
}

#[test]
fn fixed_joint_keeps_handle_rigid() {
    // The handle must stay locked to the base through arbitrary stepping:
    // same rotation, displacement exactly the difference of the two
    // configured shifts while the base stays unrotated.
    let mut w = PhysicsWorld::new();
    w.set_timestep(16_666).unwrap();
    w.set_left_motor_target_speed(3_000_000);
    w.set_max_left_motor_torque(50_000_000);
    for _ in 0..10 {
        w.step();
    }
    let base = w.get_part_position(Parts::BASE);
    let handle = w.get_part_position(Parts::HANDLE);
    assert_eq!(handle.x - base.x, 0);
    assert_eq!(handle.y - base.y, 300_000);
    assert_eq!(handle.z - base.z, 200_000);
    assert_eq!(w.get_part_rotation(Parts::HANDLE), w.get_part_rotation(Parts::BASE));
}

#[test]
fn wheel_pose_matches_forward_kinematics() {
    // The reported wheel rotation must equal the composition of the root
    // rotation with the wheel joint's own axis-angle transform.
    let mut w = PhysicsWorld::new();
    w.set_timestep(16_666).unwrap();
    w.set_left_motor_target_speed(2_000_000);
    w.set_max_left_motor_torque(80_000_000);
    for _ in 0..5 {
        w.step();
    }
    let (axis, angle) = match w.part_joint(Parts::LEFT_WHEEL) {
        Joint::Revolute(rs) => (rs.axis, rs.angle),
        _ => panic!("left wheel must be revolute"),
    };
    assert!(angle != 0, "the wheel must have turned");
    let expected = qmul(w.get_part_rotation(Parts::BASE), axis_angle(axis, angle));
    assert_eq!(w.get_part_rotation(Parts::LEFT_WHEEL), expected);
}

#[test]
fn energy_does_not_grow_without_gravity_or_torque() {
    // Spin the left wheel up, then switch gravity off and the torque
    // bound to zero: the squared-velocity energy proxy must never grow.
    let mut w = PhysicsWorld::new();
    w.set_timestep(16_666).unwrap();
    w.set_left_motor_target_speed(4_000_000);
    w.set_max_left_motor_torque(100_000_000);
    for _ in 0..5 {
        w.step();
    }
    w.set_max_left_motor_torque(0);
    w.set_gravity(Vec3Fx::new(0, 0, 0));
    let mut prev = energy_proxy(&w);
    for _ in 0..20 {
        w.step();
        let e = energy_proxy(&w);
        assert!(e <= prev, "energy must not grow: {prev} -> {e}");
        prev = e;
    }
}

fn energy_proxy(w: &PhysicsWorld) -> i128 {
    let lv = left_wheel_velocity(w) as i128;
    let rv = right_wheel_velocity(w) as i128;
    let root = match w.part_joint(Parts::BASE) {
        Joint::Free(f) => {
            let v = f.lin_vel;
            v.x as i128 * v.x as i128 + v.y as i128 * v.y as i128 + v.z as i128 * v.z as i128
        },
        _ => panic!("base must ride the free joint"),
    };
    root + lv * lv + rv * rv
}

#[test]
fn set_timestep_rejects_non_positive() {
    let mut w = PhysicsWorld::new();
    w.set_timestep(16_666).unwrap();
    assert_eq!(w.set_timestep(0), Err(PhysicsError::InvalidTimestep));
    assert_eq!(w.set_timestep(-7), Err(PhysicsError::InvalidTimestep));
    assert_eq!(w.timestep(), 16_666);
    assert_eq!(w.set_timestep(8_333), Ok(()));
    assert_eq!(w.timestep(), 8_333);
}

#[test]
fn part_codes_are_fixed() {
    assert_eq!(Parts::BASE.code(), 0);
    assert_eq!(Parts::HANDLE.code(), 1);
    assert_eq!(Parts::LEFT_WHEEL.code(), 2);
    assert_eq!(Parts::RIGHT_WHEEL.code(), 3);
    assert_eq!(Parts::from_code(0), Some(Parts::BASE));
    assert_eq!(Parts::from_code(1), Some(Parts::HANDLE));
    assert_eq!(Parts::from_code(2), Some(Parts::LEFT_WHEEL));
    assert_eq!(Parts::from_code(3), Some(Parts::RIGHT_WHEEL));
    assert_eq!(Parts::from_code(4), None);
}

#[test]
fn default_world_is_at_rest_at_origin() {
    let w = PhysicsWorld::new();
    let base = w.get_part_position(Parts::BASE);
    assert_eq!((base.x, base.y, base.z), (0, 300_000, 0));
    let left = w.get_part_position(Parts::LEFT_WHEEL);
    assert_eq!((left.x, left.y, left.z), (-400_000, 0, 0));
    let right = w.get_part_position(Parts::RIGHT_WHEEL);
    assert_eq!((right.x, right.y, right.z), (400_000, 0, 0));
    let rot = w.get_part_rotation(Parts::BASE);
    assert_eq!((rot.x, rot.y, rot.z, rot.w), (0, 0, 0, SCALE));
    assert_eq!(left_wheel_velocity(&w), 0);
    assert_eq!(right_wheel_velocity(&w), 0);
}
