//! Component-level tests: fixed-point arithmetic, shapes, joints, the
//! store, contact detection and the stepper.

use segway_physics::detect::any_ground_contact;
use segway_physics::detect::ground_gap;
use segway_physics::detect::should_test_pair;
use segway_physics::errors::PhysicsError;
use segway_physics::fx::fx_add;
use segway_physics::fx::fx_cos;
use segway_physics::fx::fx_div;
use segway_physics::fx::fx_mul;
use segway_physics::fx::fx_sin;
use segway_physics::fx::fx_sub;
use segway_physics::fx::fx_wrap;
use segway_physics::joint::Joint;
use segway_physics::linalg::Pose;
use segway_physics::linalg::QuatFx;
use segway_physics::linalg::Vec3Fx;
use segway_physics::linalg::compose;
use segway_physics::linalg::qrot;
use segway_physics::linalg::vadd;
use segway_physics::linalg::vneg;
use segway_physics::linalg::vsub;
use segway_physics::multibody::Multibody;
use segway_physics::joint::FreeState;
use segway_physics::shape::axial_inertia;
use segway_physics::shape::collider_mass;
use segway_physics::shape::shape_volume;
use segway_physics::shape::BodyPartHandle;
use segway_physics::shape::Collider;
use segway_physics::shape::ColliderStore;
use segway_physics::shape::Shape;
use segway_physics::store::BodyHandle;
use segway_physics::store::BodyStore;
use segway_physics::world::step_multibody;
use segway_physics::FX_LIMIT;
use segway_physics::SCALE;

#[test]
fn fixed_point_arithmetic_basics() {
    assert_eq!(fx_mul(2_000_000, 3_000_000), 6_000_000);
    assert_eq!(fx_mul(-2_000_000, 3_000_000), -6_000_000);
    assert_eq!(fx_mul(-2_000_000, -3_000_000), 6_000_000);
    assert_eq!(fx_div(1_000_000, 3_000_000), 333_333);
    assert_eq!(fx_div(-1_000_000, 3_000_000), -333_333);
    assert_eq!(fx_add(FX_LIMIT, 1), FX_LIMIT);
    assert_eq!(fx_sub(-FX_LIMIT, 1), -FX_LIMIT);
}

#[test]
fn trig_at_known_angles() {
    assert_eq!(fx_sin(0), 0);
    assert_eq!(fx_cos(0), SCALE);
    let quarter = 1_570_796;
    assert!((fx_sin(quarter) - SCALE).abs() <= 1_000);
    assert!(fx_cos(quarter).abs() <= 1_000);
    // reduction by whole turns
    assert_eq!(fx_wrap(6_283_185 + 500_000), 500_000);
    assert_eq!(fx_wrap(-6_283_185 - 500_000), -500_000);
}

#[test]
fn rotating_by_identity_changes_nothing() {
    let v = Vec3Fx::new(123_456, -654_321, 42);
    let r = qrot(QuatFx::identity(), v);
    assert_eq!((r.x, r.y, r.z), (v.x, v.y, v.z));
    let p = compose(Pose::identity(), Pose { pos: v, rot: QuatFx::identity() });
    assert_eq!((p.pos.x, p.pos.y, p.pos.z), (v.x, v.y, v.z));
}

#[test]
fn vector_ops_are_componentwise() {
    let a = Vec3Fx::new(1_000, -2_000, 3_000);
    let b = Vec3Fx::new(10, 20, -30);
    let s = vadd(a, b);
    assert_eq!((s.x, s.y, s.z), (1_010, -1_980, 2_970));
    let d = vsub(a, b);
    assert_eq!((d.x, d.y, d.z), (990, -2_020, 3_030));
    let n = vneg(a);
    assert_eq!((n.x, n.y, n.z), (-1_000, 2_000, -3_000));
}

#[test]
fn shape_mass_properties() {
    let base = Shape::Cuboid { half_extents: Vec3Fx::new(250_000, 150_000, 200_000) };
    assert_eq!(shape_volume(&base), 60_000);
    let wheel = Shape::ConvexWheel { half_height: 100_000, radius: 250_000 };
    assert_eq!(shape_volume(&wheel), 39_269);
    let ground = BodyHandle { index: 0, generation: 0 };
    let c = Collider {
        shape: wheel,
        density: SCALE,
        local_offset: Pose::identity(),
        part: BodyPartHandle { body: ground, link: 0 },
    };
    assert_eq!(collider_mass(&c), 39_269);
    assert_eq!(axial_inertia(&c), 1_227);
    let plane = Collider {
        shape: Shape::Plane,
        density: SCALE,
        local_offset: Pose::identity(),
        part: BodyPartHandle { body: ground, link: 0 },
    };
    assert_eq!(collider_mass(&plane), 0);
    assert_eq!(axial_inertia(&plane), 0);
}

#[test]
fn joint_degrees_of_freedom_and_rows() {
    let free = Joint::free_at(Vec3Fx::zero(), QuatFx::identity());
    assert_eq!(free.degrees_of_freedom(), 6);
    assert_eq!(free.constraint_rows(), 0);
    assert_eq!(Joint::Fixed.degrees_of_freedom(), 0);
    assert_eq!(Joint::Fixed.constraint_rows(), 6);
    let mut rev = Joint::revolute(Vec3Fx::new(SCALE, 0, 0), 0);
    assert_eq!(rev.degrees_of_freedom(), 1);
    assert_eq!(rev.constraint_rows(), 5);
    rev.set_motor_enabled(true).unwrap();
    assert_eq!(rev.constraint_rows(), 6);
}

#[test]
fn motor_operations_on_wrong_joint_kind() {
    let mut fixed = Joint::Fixed;
    assert_eq!(fixed.set_motor_enabled(true), Err(PhysicsError::InvalidJointKind));
    assert_eq!(fixed.set_max_motor_torque(1_000), Err(PhysicsError::InvalidJointKind));
    assert_eq!(fixed.set_desired_motor_velocity(1_000), Err(PhysicsError::InvalidJointKind));
    let mut free = Joint::free_at(Vec3Fx::zero(), QuatFx::identity());
    assert_eq!(free.set_max_motor_torque(1_000), Err(PhysicsError::InvalidJointKind));
}

fn test_multibody() -> Multibody {
    let root = FreeState {
        position: Vec3Fx::zero(),
        orientation: QuatFx::identity(),
        lin_vel: Vec3Fx::zero(),
        ang_vel: Vec3Fx::zero(),
    };
    let mut mb = Multibody::with_root(root, "root", Vec3Fx::zero());
    mb.add_link(0, Joint::Fixed, "arm", Vec3Fx::new(0, 100_000, 0)).unwrap();
    mb.update_kinematics();
    mb
}

#[test]
fn multibody_rejects_bad_links() {
    let mut mb = test_multibody();
    let free = Joint::free_at(Vec3Fx::zero(), QuatFx::identity());
    assert_eq!(mb.add_link(9, Joint::Fixed, "x", Vec3Fx::zero()), Err(PhysicsError::LinkNotFound));
    assert_eq!(mb.add_link(0, free, "x", Vec3Fx::zero()), Err(PhysicsError::InvalidJointKind));
    assert_eq!(mb.set_link_max_motor_torque(1, 5), Err(PhysicsError::InvalidJointKind));
    assert_eq!(mb.set_link_max_motor_torque(7, 5), Err(PhysicsError::LinkNotFound));
    assert!(mb.link(1).is_ok());
    assert!(mb.link(2).is_err());
}

#[test]
fn store_detects_stale_and_unknown_handles() {
    let mut bodies = BodyStore::new();
    let ground = bodies.insert_static_body();
    let h = bodies.build_multibody(test_multibody());
    assert!(bodies.multibody(h).is_ok());
    assert_eq!(
        bodies.multibody(BodyHandle { index: h.index, generation: h.generation + 1 }).err(),
        Some(PhysicsError::LinkNotFound)
    );
    assert_eq!(
        bodies.multibody(BodyHandle { index: 99, generation: 0 }).err(),
        Some(PhysicsError::LinkNotFound)
    );
    assert_eq!(bodies.multibody(ground).err(), Some(PhysicsError::LinkNotFound));
    assert!(bodies.link_world_pose(h, 0).is_ok());
    assert_eq!(bodies.link_world_pose(h, 5).err(), Some(PhysicsError::LinkNotFound));
}

#[test]
fn zero_timestep_leaves_poses_unchanged() {
    let mut bodies = BodyStore::new();
    let h = bodies.build_multibody(test_multibody());
    let cs = ColliderStore::new();
    let before0 = bodies.link_world_pose(h, 0).unwrap();
    let before1 = bodies.link_world_pose(h, 1).unwrap();
    bodies.step_body(h, &cs, Vec3Fx::new(0, -9_810_000, 0), 0).unwrap();
    assert_eq!(bodies.link_world_pose(h, 0).unwrap(), before0);
    assert_eq!(bodies.link_world_pose(h, 1).unwrap(), before1);
}

#[test]
fn ground_contact_band_and_velocity_clamp() {
    // A wheel hovering just above the plane is inside the activation
    // band: the ground row must cancel its downward velocity, so one step
    // leaves its height unchanged.
    let root = FreeState {
        position: Vec3Fx::new(0, 260_000, 0),
        orientation: QuatFx::identity(),
        lin_vel: Vec3Fx::zero(),
        ang_vel: Vec3Fx::zero(),
    };
    let mut mb = Multibody::with_root(root, "wheel", Vec3Fx::zero());
    mb.update_kinematics();
    let mut bodies = BodyStore::new();
    let h = bodies.build_multibody(mb);
    let mut cs = ColliderStore::new();
    let wheel = Collider {
        shape: Shape::ConvexWheel { half_height: 100_000, radius: 250_000 },
        density: SCALE,
        local_offset: Pose::identity(),
        part: BodyPartHandle { body: h, link: 0 },
    };
    cs.insert(wheel);
    let pose = bodies.link_world_pose(h, 0).unwrap();
    assert_eq!(ground_gap(&wheel, pose), 10_000);
    assert!(any_ground_contact(&cs, h, bodies.multibody(h).unwrap()));
    let y0 = bodies.link_world_pose(h, 0).unwrap().pos.y;
    bodies.step_body(h, &cs, Vec3Fx::new(0, -9_810_000, 0), 16_666).unwrap();
    let y1 = bodies.link_world_pose(h, 0).unwrap().pos.y;
    assert_eq!(y0, y1);

    // Deep interpenetration lies outside the band and is ignored.
    let deep = Collider {
        shape: Shape::ConvexWheel { half_height: 100_000, radius: 250_000 },
        density: SCALE,
        local_offset: Pose { pos: Vec3Fx::new(0, -200_000, 0), rot: QuatFx::identity() },
        part: BodyPartHandle { body: h, link: 0 },
    };
    assert_eq!(ground_gap(&deep, pose), -190_000);
}

#[test]
fn adjacent_links_are_never_paired() {
    let mb = test_multibody();
    assert!(!should_test_pair(&mb, 0, 0, true));
    assert!(!should_test_pair(&mb, 0, 1, true));
    assert!(!should_test_pair(&mb, 1, 0, true));
}

#[test]
fn gravity_integrates_semi_implicitly() {
    // One step from rest: velocity first (g * dt), then position with the
    // updated velocity, so the drop is (g * dt) * dt exactly.
    let mut mb = test_multibody();
    mb.update_kinematics();
    let cs = ColliderStore::new();
    let h = BodyHandle { index: 0, generation: 0 };
    let y0 = mb.link(0).unwrap().pose.pos.y;
    step_multibody(&mut mb, &cs, h, Vec3Fx::new(0, -9_810_000, 0), 16_666);
    let y1 = mb.link(0).unwrap().pose.pos.y;
    assert_eq!(y0 - y1, 2_724);
    match mb.link(0).unwrap().joint {
        Joint::Free(f) => assert_eq!(f.lin_vel.y, -163_493),
        _ => panic!("root must be free"),
    }
}

#[test]
fn error_descriptions_name_the_failure() {
    assert!(PhysicsError::InvalidJointKind.describe().contains("joint"));
    assert!(PhysicsError::LinkNotFound.describe().contains("link"));
    assert!(PhysicsError::InvalidTimestep.describe().contains("timestep"));
}
