//! The facade: one simulation instance with the fixed robot topology.
//!
//! Construction builds the static ground plane and the four-link
//! multibody — base on a free joint, handle fixed to the base, two wheels
//! on motorised revolute joints about the x axis — exactly once. After
//! that the host only steps the world, sets motor parameters and the
//! timestep, and queries link poses.

use vstd::prelude::*;

use vstd::pervasive::unreached;

use crate::detect::s_any_ground_contact;
use crate::errors::PhysicsError;
use crate::fx::fx_in_range;
use crate::fx::SCALE;
use crate::joint::s_local_pose;
use crate::joint::FreeState;
use crate::joint::Joint;
use crate::joint::MotorState;
use crate::joint::RevoluteState;
use crate::linalg::lemma_compose_identity_right;
use crate::linalg::lemma_qrot_identity;
use crate::linalg::pose_identity;
use crate::linalg::q_identity;
use crate::linalg::v3_zero;
use crate::linalg::Pose;
use crate::linalg::QuatFx;
use crate::linalg::Vec3Fx;
use crate::multibody::lemma_pose_congruent_local;
use crate::multibody::lemma_wf_after_joint_update;
use crate::multibody::link_in_range;
use crate::multibody::links_wf;
use crate::multibody::motor_torque_updated;
use crate::multibody::motor_velocity_updated;
use crate::multibody::poses_current;
use crate::multibody::s_joint_frame;
use crate::multibody::s_link_pose;
use crate::multibody::Link;
use crate::multibody::Multibody;
use crate::shape::colliders_wf;
use crate::shape::BodyPartHandle;
use crate::shape::Collider;
use crate::shape::ColliderStore;
use crate::shape::Shape;
use crate::store::handle_live;
use crate::store::is_articulated;
use crate::store::links_of;
use crate::store::store_wf;
use crate::store::BodyHandle;
use crate::store::BodyStore;
use crate::world::mech_wf;
use crate::world::s_joint_after_step;
use crate::world::s_link_inertia;
use crate::world::MechanicalWorld;

verus! {

/// The four links of the robot, with their fixed public codes: the codes
/// are the link indices assigned at construction and never change.
#[allow(non_camel_case_types)]
#[derive(Clone, Copy, Debug, PartialEq, Eq, Structural)]
pub enum Parts {
    BASE,
    HANDLE,
    LEFT_WHEEL,
    RIGHT_WHEEL,
}

pub open spec fn part_code(p: Parts) -> int {
    match p {
        Parts::BASE => 0,
        Parts::HANDLE => 1,
        Parts::LEFT_WHEEL => 2,
        Parts::RIGHT_WHEEL => 3,
    }
}

impl Parts {
    /// The part's public integer code, which is also its link index.
    pub fn code(&self) -> (r: usize)
        ensures
            r == part_code(*self),
    {
        match self {
            Parts::BASE => 0,
            Parts::HANDLE => 1,
            Parts::LEFT_WHEEL => 2,
            Parts::RIGHT_WHEEL => 3,
        }
    }

    /// The part with the given code, if any.
    pub fn from_code(code: usize) -> (r: Option<Parts>)
        ensures
            r == if code == 0 {
                Option::Some(Parts::BASE)
            } else if code == 1 {
                Option::Some(Parts::HANDLE)
            } else if code == 2 {
                Option::Some(Parts::LEFT_WHEEL)
            } else if code == 3 {
                Option::Some(Parts::RIGHT_WHEEL)
            } else {
                Option::None::<Parts>
            },
    {
        if code == 0 {
            Some(Parts::BASE)
        } else if code == 1 {
            Some(Parts::HANDLE)
        } else if code == 2 {
            Some(Parts::LEFT_WHEEL)
        } else if code == 3 {
            Some(Parts::RIGHT_WHEEL)
        } else {
            None
        }
    }
}

/// The initial state of each wheel's joint: at rest about the x axis,
/// motor enabled with no torque allowance and a zero target.
pub open spec fn initial_wheel_joint() -> Joint {
    Joint::Revolute(
        RevoluteState {
            axis: (Vec3Fx { x: SCALE, y: 0, z: 0 }),
            angle: 0,
            velocity: 0,
            motor: (MotorState { enabled: true, max_torque: 0, desired_velocity: 0 }),
        },
    )
}

/// The initial state of the root joint: at rest at the origin.
pub open spec fn initial_root_joint() -> Joint {
    Joint::Free(
        FreeState {
            position: v3_zero(),
            orientation: q_identity(),
            lin_vel: v3_zero(),
            ang_vel: v3_zero(),
        },
    )
}

/// A revolute joint about the positive x axis, as both wheels keep.
pub open spec fn wheel_joint_on_x_axis(j: Joint) -> bool {
    match j {
        Joint::Revolute(rs) => rs.axis == (Vec3Fx { x: SCALE, y: 0, z: 0 }),
        _ => false,
    }
}

/// The local rotation of each wheel collider: a quarter turn about z,
/// which lays the hull's cylinder axis along the link's x axis.
pub open spec fn wheel_collider_rot() -> crate::linalg::QuatFx {
    crate::joint::s_axis_angle(Vec3Fx { x: 0, y: 0, z: SCALE }, 1_570_796)
}

/// The five colliders the constructor attaches, in insertion order: the
/// ground plane on the static body, the base and handle cuboids, and the
/// two wheel hulls, all with unit density.
pub open spec fn default_colliders(ground: BodyHandle, segway: BodyHandle) -> Seq<Collider> {
    seq![
        Collider {
            shape: Shape::Plane,
            density: SCALE,
            local_offset: pose_identity(),
            part: BodyPartHandle { body: ground, link: 0 },
        },
        Collider {
            shape: Shape::Cuboid { half_extents: Vec3Fx { x: 250_000, y: 150_000, z: 200_000 } },
            density: SCALE,
            local_offset: pose_identity(),
            part: BodyPartHandle { body: segway, link: 0 },
        },
        Collider {
            shape: Shape::Cuboid { half_extents: Vec3Fx { x: 50_000, y: 600_000, z: 50_000 } },
            density: SCALE,
            local_offset: Pose { pos: Vec3Fx { x: 0, y: 600_000, z: 200_000 }, rot: q_identity() },
            part: BodyPartHandle { body: segway, link: 1 },
        },
        Collider {
            shape: Shape::ConvexWheel { half_height: 100_000, radius: 250_000 },
            density: SCALE,
            local_offset: Pose { pos: v3_zero(), rot: wheel_collider_rot() },
            part: BodyPartHandle { body: segway, link: 2 },
        },
        Collider {
            shape: Shape::ConvexWheel { half_height: 100_000, radius: 250_000 },
            density: SCALE,
            local_offset: Pose { pos: v3_zero(), rot: wheel_collider_rot() },
            part: BodyPartHandle { body: segway, link: 3 },
        },
    ]
}

pub struct PhysicsWorld {
    mechanical: MechanicalWorld,
    bodies: BodyStore,
    colliders: ColliderStore,
    ground: BodyHandle,
    segway: BodyHandle,
}

impl PhysicsWorld {
    /// The robot's links as the store holds them.
    pub closed spec fn links_model(&self) -> Seq<Link> {
        links_of(&self.bodies, self.segway)
    }

    /// The colliders, in insertion order.
    pub closed spec fn colliders_model(&self) -> Seq<Collider> {
        self.colliders.colliders@
    }

    pub closed spec fn gravity_model(&self) -> Vec3Fx {
        self.mechanical.gravity
    }

    pub closed spec fn timestep_model(&self) -> i64 {
        self.mechanical.timestep
    }

    pub closed spec fn segway_handle(&self) -> BodyHandle {
        self.segway
    }

    pub closed spec fn ground_handle(&self) -> BodyHandle {
        self.ground
    }

    /// How many bodies the store holds: the ground and the robot.
    pub closed spec fn body_count(&self) -> int {
        self.bodies.entries@.len() as int
    }

    /// The facade's invariant: both stores well formed; exactly the
    /// static ground body and the live multibody; the four fixed links
    /// with the configured parents, shifts, names, joint kinds and wheel
    /// axes; the five constructed colliders; and every stored pose
    /// current.
    pub closed spec fn wf(&self) -> bool {
        &&& store_wf(&self.bodies)
        &&& colliders_wf(&self.colliders)
        &&& mech_wf(&self.mechanical)
        &&& self.bodies.entries@.len() == 2
        &&& self.ground.index != self.segway.index
        &&& handle_live(&self.bodies, self.ground)
        &&& self.bodies.entries@[self.ground.index as int].body is Static
        &&& is_articulated(&self.bodies, self.segway)
        &&& links_wf(self.links_model())
        &&& self.links_model().len() == 4
        &&& self.links_model()[0].parent is None
        &&& self.links_model()[1].parent == Some(0usize)
        &&& self.links_model()[2].parent == Some(0usize)
        &&& self.links_model()[3].parent == Some(0usize)
        &&& self.links_model()[0].shift == (Vec3Fx { x: 0, y: 300_000, z: 0 })
        &&& self.links_model()[1].shift == (Vec3Fx { x: 0, y: 600_000, z: 200_000 })
        &&& self.links_model()[2].shift == (Vec3Fx { x: -400_000i64, y: 0, z: 0 })
        &&& self.links_model()[3].shift == (Vec3Fx { x: 400_000, y: 0, z: 0 })
        &&& self.links_model()[0].name == "BodyBase"
        &&& self.links_model()[1].name == "BodyHandle"
        &&& self.links_model()[2].name == "LeftWheel"
        &&& self.links_model()[3].name == "RightWheel"
        &&& self.links_model()[0].joint is Free
        &&& self.links_model()[1].joint is Fixed
        &&& wheel_joint_on_x_axis(self.links_model()[2].joint)
        &&& wheel_joint_on_x_axis(self.links_model()[3].joint)
        &&& self.colliders.colliders@ == default_colliders(self.ground, self.segway)
        &&& poses_current(self.links_model())
    }
}

impl PhysicsWorld {
    /// Build the fixed topology: the ground plane, then the four-link
    /// robot with its colliders, at rest at the origin under standard
    /// gravity and the default timestep.
    pub fn new() -> (r: PhysicsWorld)
        ensures
            r.wf(),
            r.links_model().len() == 4,
            r.links_model()[0].joint == initial_root_joint(),
            r.links_model()[0].shift == (Vec3Fx { x: 0, y: 300_000, z: 0 }),
            r.links_model()[1].joint is Fixed,
            r.links_model()[1].shift == (Vec3Fx { x: 0, y: 600_000, z: 200_000 }),
            r.links_model()[2].joint == initial_wheel_joint(),
            r.links_model()[2].shift == (Vec3Fx { x: -400_000i64, y: 0, z: 0 }),
            r.links_model()[3].joint == initial_wheel_joint(),
            r.links_model()[3].shift == (Vec3Fx { x: 400_000, y: 0, z: 0 }),
            r.gravity_model() == (Vec3Fx { x: 0, y: -9_810_000i64, z: 0 }),
            r.timestep_model() == crate::world::DEFAULT_TIMESTEP,
            poses_current(r.links_model()),
            r.links_model()[0].parent is None,
            r.links_model()[1].parent == Some(0usize),
            r.links_model()[2].parent == Some(0usize),
            r.links_model()[3].parent == Some(0usize),
            r.links_model()[0].name == "BodyBase",
            r.links_model()[1].name == "BodyHandle",
            r.links_model()[2].name == "LeftWheel",
            r.links_model()[3].name == "RightWheel",
            r.colliders_model() == default_colliders(r.ground_handle(), r.segway_handle()),
            r.body_count() == 2,
            r.ground_handle().index != r.segway_handle().index,
            r.links_model()[0].pose == (Pose {
                pos: (Vec3Fx { x: 0, y: 300_000, z: 0 }),
                rot: q_identity(),
            }),
            r.links_model()[1].pose == (Pose {
                pos: (Vec3Fx { x: 0, y: 600_000, z: 200_000 }),
                rot: q_identity(),
            }),
            r.links_model()[2].pose == (Pose {
                pos: (Vec3Fx { x: -400_000i64, y: 0, z: 0 }),
                rot: q_identity(),
            }),
            r.links_model()[3].pose == (Pose {
                pos: (Vec3Fx { x: 400_000, y: 0, z: 0 }),
                rot: q_identity(),
            }),
    {
        let mechanical = MechanicalWorld::new(Vec3Fx::new(0, -9_810_000, 0));
        let mut bodies = BodyStore::new();
        let mut colliders = ColliderStore::new();
        let ground = bodies.insert_static_body();
        let root = FreeState {
            position: Vec3Fx::zero(),
            orientation: QuatFx::identity(),
            lin_vel: Vec3Fx::zero(),
            ang_vel: Vec3Fx::zero(),
        };
        let mut mb = Multibody::with_root(root, "BodyBase", Vec3Fx::new(0, 300_000, 0));
        let r1 = mb.add_link(0, Joint::Fixed, "BodyHandle", Vec3Fx::new(0, 600_000, 200_000));
        match r1 {
            Ok(_) => (),
            Err(_) => {
                return unreached();
            },
        }
        let mut left_axis = Joint::revolute(Vec3Fx::new(SCALE, 0, 0), 0);
        let rl = left_axis.set_motor_enabled(true);
        match rl {
            Ok(_) => (),
            Err(_) => {
                return unreached();
            },
        }
        let r2 = mb.add_link(0, left_axis, "LeftWheel", Vec3Fx::new(-400_000, 0, 0));
        match r2 {
            Ok(_) => (),
            Err(_) => {
                return unreached();
            },
        }
        let mut right_axis = Joint::revolute(Vec3Fx::new(SCALE, 0, 0), 0);
        let rr = right_axis.set_motor_enabled(true);
        match rr {
            Ok(_) => (),
            Err(_) => {
                return unreached();
            },
        }
        let r3 = mb.add_link(0, right_axis, "RightWheel", Vec3Fx::new(400_000, 0, 0));
        match r3 {
            Ok(_) => (),
            Err(_) => {
                return unreached();
            },
        }
        mb.update_kinematics();
        proof {
            let links = mb.links@;
            crate::joint::lemma_axis_angle_zero(Vec3Fx { x: SCALE, y: 0, z: 0 });
            lemma_compose_identity_right(pose_identity());
            assert(s_joint_frame(links, 0) == pose_identity());
            assert(s_joint_frame(links, 1) == pose_identity());
            assert(s_joint_frame(links, 2) == pose_identity());
            assert(s_joint_frame(links, 3) == pose_identity());
            assert(link_in_range(links[0]) && link_in_range(links[1]) && link_in_range(links[2])
                && link_in_range(links[3]));
            lemma_qrot_identity(links[0].shift);
            lemma_qrot_identity(links[1].shift);
            lemma_qrot_identity(links[2].shift);
            lemma_qrot_identity(links[3].shift);
            assert(s_link_pose(links, 0) == (Pose { pos: links[0].shift, rot: q_identity() }));
            assert(s_link_pose(links, 1) == (Pose { pos: links[1].shift, rot: q_identity() }));
            assert(s_link_pose(links, 2) == (Pose { pos: links[2].shift, rot: q_identity() }));
            assert(s_link_pose(links, 3) == (Pose { pos: links[3].shift, rot: q_identity() }));
        }
        let segway = bodies.build_multibody(mb);
        colliders.insert(
            Collider {
                shape: Shape::Plane,
                density: SCALE,
                local_offset: Pose::identity(),
                part: BodyPartHandle { body: ground, link: 0 },
            },
        );
        colliders.insert(
            Collider {
                shape: Shape::Cuboid { half_extents: Vec3Fx::new(250_000, 150_000, 200_000) },
                density: SCALE,
                local_offset: Pose::identity(),
                part: BodyPartHandle { body: segway, link: 0 },
            },
        );
        colliders.insert(
            Collider {
                shape: Shape::Cuboid { half_extents: Vec3Fx::new(50_000, 600_000, 50_000) },
                density: SCALE,
                local_offset: Pose {
                    pos: Vec3Fx::new(0, 600_000, 200_000),
                    rot: QuatFx::identity(),
                },
                part: BodyPartHandle { body: segway, link: 1 },
            },
        );
        let wheel_rot = crate::joint::axis_angle(Vec3Fx::new(0, 0, SCALE), 1_570_796);
        colliders.insert(
            Collider {
                shape: Shape::ConvexWheel { half_height: 100_000, radius: 250_000 },
                density: SCALE,
                local_offset: Pose { pos: Vec3Fx::zero(), rot: wheel_rot },
                part: BodyPartHandle { body: segway, link: 2 },
            },
        );
        colliders.insert(
            Collider {
                shape: Shape::ConvexWheel { half_height: 100_000, radius: 250_000 },
                density: SCALE,
                local_offset: Pose { pos: Vec3Fx::zero(), rot: wheel_rot },
                part: BodyPartHandle { body: segway, link: 3 },
            },
        );
        proof {
            assert(colliders.colliders@ =~= default_colliders(ground, segway));
        }
        PhysicsWorld { mechanical, bodies, colliders, ground, segway }
    }

    /// Run the stepping cycle once, to completion.
    #[verifier::rlimit(100)]
    pub fn step(&mut self)
        requires
            old(self).wf(),
        ensures
            final(self).wf(),
            final(self).gravity_model() == old(self).gravity_model(),
            final(self).timestep_model() == old(self).timestep_model(),
            final(self).colliders_model() == old(self).colliders_model(),
            final(self).links_model().len() == 4,
            poses_current(final(self).links_model()),
            forall|i: int|
                0 <= i < 4 ==> {
                    let l1 = #[trigger] final(self).links_model()[i];
                    let l0 = old(self).links_model()[i];
                    l1.parent == l0.parent && l1.shift == l0.shift && l1.name == l0.name
                        && l1.joint == s_joint_after_step(
                        l0.joint,
                        old(self).gravity_model(),
                        old(self).timestep_model(),
                        s_any_ground_contact(
                            old(self).colliders_model(),
                            old(self).segway_handle(),
                            old(self).links_model(),
                        ),
                        s_link_inertia(
                            old(self).colliders_model(),
                            old(self).segway_handle(),
                            i,
                        ),
                    )
                },
    {
        let r = self.mechanical.step(&mut self.bodies, &self.colliders, self.segway);
        match r {
            Ok(_) => (),
            Err(_) => {
                proof {
                    assert(false);
                }
            },
        }
        proof {
            let a = old(self).links_model();
            let b = self.links_model();
            let g = old(self).gravity_model();
            let dt = old(self).timestep_model();
            let contact = s_any_ground_contact(
                old(self).colliders_model(),
                old(self).segway_handle(),
                a,
            );
            assert forall|i: int| 0 <= i < 4 implies ((#[trigger] b[i]).joint is Free <==> a[i].joint
                is Free) && (b[i].joint is Fixed <==> a[i].joint is Fixed) && (wheel_joint_on_x_axis(
                b[i].joint,
            ) <==> wheel_joint_on_x_axis(a[i].joint)) by {
                lemma_step_keeps_kinds(
                    a[i].joint,
                    g,
                    dt,
                    contact,
                    s_link_inertia(old(self).colliders_model(), old(self).segway_handle(), i),
                );
            }
        }
    }

    /// Replace the fixed timestep used by future steps; non-positive
    /// timesteps are rejected and the prior timestep kept.
    pub fn set_timestep(&mut self, dt: i64) -> (r: Result<(), PhysicsError>)
        requires
            old(self).wf(),
            fx_in_range(dt),
        ensures
            final(self).wf(),
            final(self).links_model() == old(self).links_model(),
            final(self).colliders_model() == old(self).colliders_model(),
            final(self).gravity_model() == old(self).gravity_model(),
            dt > 0 ==> r is Ok && final(self).timestep_model() == dt,
            dt <= 0 ==> r == Err::<(), PhysicsError>(PhysicsError::InvalidTimestep) && final(self).timestep_model() == old(self).timestep_model(),
    {
        self.mechanical.set_timestep(dt)
    }

    /// The fixed timestep future steps will integrate over.
    pub fn timestep(&self) -> (r: i64)
        requires
            self.wf(),
        ensures
            r == self.timestep_model(),
    {
        self.mechanical.timestep
    }

    /// Replace the gravity field applied by future steps; the zero vector
    /// disables gravity.
    pub fn set_gravity(&mut self, gravity: Vec3Fx)
        requires
            old(self).wf(),
            crate::linalg::v3_in_range(gravity),
        ensures
            final(self).wf(),
            final(self).links_model() == old(self).links_model(),
            final(self).colliders_model() == old(self).colliders_model(),
            final(self).gravity_model() == gravity,
            final(self).timestep_model() == old(self).timestep_model(),
    {
        self.mechanical.set_gravity(gravity);
    }

    /// World position of a part, read from the already-computed poses.
    pub fn get_part_position(&self, part: Parts) -> (r: Vec3Fx)
        requires
            self.wf(),
        ensures
            r == s_link_pose(self.links_model(), part_code(part)).pos,
    {
        let idx = part.code();
        let p = match self.bodies.link_world_pose(self.segway, idx) {
            Ok(p) => p,
            Err(_) => unreached(),
        };
        p.pos
    }

    /// World rotation of a part, read from the already-computed poses.
    /// The quaternion is near-unit: rotations start at the exact identity
    /// and are composed from near-unit factors, but the integrator does
    /// not renormalize, so no exact unit-norm bound is promised.
    pub fn get_part_rotation(&self, part: Parts) -> (r: QuatFx)
        requires
            self.wf(),
        ensures
            r == s_link_pose(self.links_model(), part_code(part)).rot,
    {
        let idx = part.code();
        let p = match self.bodies.link_world_pose(self.segway, idx) {
            Ok(p) => p,
            Err(_) => unreached(),
        };
        p.rot
    }

    /// The joint of a part, with its current coordinates and motor state.
    pub fn part_joint(&self, part: Parts) -> (r: Joint)
        requires
            self.wf(),
        ensures
            r == self.links_model()[part_code(part)].joint,
    {
        let idx = part.code();
        let mb = match self.bodies.multibody(self.segway) {
            Ok(mb) => mb,
            Err(_) => unreached(),
        };
        let l = match mb.link(idx) {
            Ok(l) => l,
            Err(_) => unreached(),
        };
        l.joint
    }

    /// Set the left wheel motor's torque bound; negative bounds clamp to
    /// zero. The fixed topology guarantees the joint is revolute.
    #[verifier::rlimit(80)]
    pub fn set_max_left_motor_torque(&mut self, torque: i64)
        requires
            old(self).wf(),
            fx_in_range(torque),
        ensures
            final(self).wf(),
            final(self).links_model() == old(self).links_model().update(
                2,
                (Link {
                    joint: motor_torque_updated(old(self).links_model()[2].joint, torque),
                    ..old(self).links_model()[2]
                }),
            ),
            final(self).colliders_model() == old(self).colliders_model(),
            final(self).gravity_model() == old(self).gravity_model(),
            final(self).timestep_model() == old(self).timestep_model(),
    {
        let idx = Parts::LEFT_WHEEL.code();
        let r = self.bodies.set_link_max_motor_torque(self.segway, idx, torque);
        match r {
            Ok(_) => (),
            Err(_) => {
                proof {
                    assert(false);
                }
            },
        }
        proof {
            lemma_motor_updates_keep_local_pose(old(self).links_model()[2].joint, torque, 0);
            lemma_joint_swap_keeps_poses(old(self).links_model(), self.links_model(), 2);
        }
    }

    /// Set the right wheel motor's torque bound; negative bounds clamp to
    /// zero.
    #[verifier::rlimit(80)]
    pub fn set_max_right_motor_torque(&mut self, torque: i64)
        requires
            old(self).wf(),
            fx_in_range(torque),
        ensures
            final(self).wf(),
            final(self).links_model() == old(self).links_model().update(
                3,
                (Link {
                    joint: motor_torque_updated(old(self).links_model()[3].joint, torque),
                    ..old(self).links_model()[3]
                }),
            ),
            final(self).colliders_model() == old(self).colliders_model(),
            final(self).gravity_model() == old(self).gravity_model(),
            final(self).timestep_model() == old(self).timestep_model(),
    {
        let idx = Parts::RIGHT_WHEEL.code();
        let r = self.bodies.set_link_max_motor_torque(self.segway, idx, torque);
        match r {
            Ok(_) => (),
            Err(_) => {
                proof {
                    assert(false);
                }
            },
        }
        proof {
            lemma_motor_updates_keep_local_pose(old(self).links_model()[3].joint, torque, 0);
            lemma_joint_swap_keeps_poses(old(self).links_model(), self.links_model(), 3);
        }
    }

    /// Set the angular velocity the left wheel's motor drives toward.
    #[verifier::rlimit(80)]
    pub fn set_left_motor_target_speed(&mut self, speed: i64)
        requires
            old(self).wf(),
            fx_in_range(speed),
        ensures
            final(self).wf(),
            final(self).links_model() == old(self).links_model().update(
                2,
                (Link {
                    joint: motor_velocity_updated(old(self).links_model()[2].joint, speed),
                    ..old(self).links_model()[2]
                }),
            ),
            final(self).colliders_model() == old(self).colliders_model(),
            final(self).gravity_model() == old(self).gravity_model(),
            final(self).timestep_model() == old(self).timestep_model(),
    {
        let idx = Parts::LEFT_WHEEL.code();
        let r = self.bodies.set_link_desired_motor_velocity(self.segway, idx, speed);
        match r {
            Ok(_) => (),
            Err(_) => {
                proof {
                    assert(false);
                }
            },
        }
        proof {
            lemma_motor_updates_keep_local_pose(old(self).links_model()[2].joint, 0, speed);
            lemma_joint_swap_keeps_poses(old(self).links_model(), self.links_model(), 2);
        }
    }

    /// Set the angular velocity the right wheel's motor drives toward.
    #[verifier::rlimit(80)]
    pub fn set_right_motor_target_speed(&mut self, speed: i64)
        requires
            old(self).wf(),
            fx_in_range(speed),
        ensures
            final(self).wf(),
            final(self).links_model() == old(self).links_model().update(
                3,
                (Link {
                    joint: motor_velocity_updated(old(self).links_model()[3].joint, speed),
                    ..old(self).links_model()[3]
                }),
            ),
            final(self).colliders_model() == old(self).colliders_model(),
            final(self).gravity_model() == old(self).gravity_model(),
            final(self).timestep_model() == old(self).timestep_model(),
    {
        let idx = Parts::RIGHT_WHEEL.code();
        let r = self.bodies.set_link_desired_motor_velocity(self.segway, idx, speed);
        match r {
            Ok(_) => (),
            Err(_) => {
                proof {
                    assert(false);
                }
            },
        }
        proof {
            lemma_motor_updates_keep_local_pose(old(self).links_model()[3].joint, 0, speed);
            lemma_joint_swap_keeps_poses(old(self).links_model(), self.links_model(), 3);
        }
    }
}

/// Everything the facade invariant guarantees, exported so callers can
/// apply the public laws of this crate from outside: the well-formed
/// four-link topology with its parents, shifts, names, joint kinds and
/// wheel axes, the five constructed colliders, pose currency, the body
/// count, and the configuration ranges.
pub proof fn lemma_world_invariant(w: &PhysicsWorld)
    requires
        w.wf(),
    ensures
        links_wf(w.links_model()),
        poses_current(w.links_model()),
        w.links_model().len() == 4,
        w.body_count() == 2,
        w.ground_handle().index != w.segway_handle().index,
        w.links_model()[0].parent is None,
        w.links_model()[1].parent == Some(0usize),
        w.links_model()[2].parent == Some(0usize),
        w.links_model()[3].parent == Some(0usize),
        w.links_model()[0].shift == (Vec3Fx { x: 0, y: 300_000, z: 0 }),
        w.links_model()[1].shift == (Vec3Fx { x: 0, y: 600_000, z: 200_000 }),
        w.links_model()[2].shift == (Vec3Fx { x: -400_000i64, y: 0, z: 0 }),
        w.links_model()[3].shift == (Vec3Fx { x: 400_000, y: 0, z: 0 }),
        w.links_model()[0].name == "BodyBase",
        w.links_model()[1].name == "BodyHandle",
        w.links_model()[2].name == "LeftWheel",
        w.links_model()[3].name == "RightWheel",
        w.links_model()[0].joint is Free,
        w.links_model()[1].joint is Fixed,
        wheel_joint_on_x_axis(w.links_model()[2].joint),
        wheel_joint_on_x_axis(w.links_model()[3].joint),
        w.colliders_model() == default_colliders(w.ground_handle(), w.segway_handle()),
        w.timestep_model() > 0,
        fx_in_range(w.timestep_model()),
        crate::linalg::v3_in_range(w.gravity_model()),
{
}

/// With the constructed colliders, each wheel link's axial inertia is
/// 1227 ticks: half the wheel hull's mass (39269 ticks) times its squared
/// radius. This pins the per-step motor velocity bound for the default
/// world.
pub proof fn lemma_default_wheel_inertia(ground: BodyHandle, segway: BodyHandle)
    requires
        ground.index != segway.index,
    ensures
        s_link_inertia(default_colliders(ground, segway), segway, 2) == 1_227,
        s_link_inertia(default_colliders(ground, segway), segway, 3) == 1_227,
{
    let cs = default_colliders(ground, segway);
    assert(cs[0].part.body != segway);
    assert(crate::fx::s_mul(250_000, 250_000) == 62_500);
    assert(crate::fx::s_mul(62_500, crate::fx::PI_FX) == 196_349);
    assert(crate::fx::s_add(100_000, 100_000) == 200_000);
    assert(crate::fx::s_mul(196_349, 200_000) == 39_269);
    assert(crate::shape::s_shape_volume(cs[3].shape) == 39_269);
    assert(crate::fx::s_mul(SCALE, 39_269) == 39_269);
    assert(crate::shape::s_collider_mass(cs[3]) == 39_269);
    assert(crate::fx::s_mul(39_269, 62_500) == 2_454);
    assert(2_454_000_000int / 2_000_000int == 1_227);
    assert(crate::fx::div_trunc(2_454 * (SCALE as int), crate::fx::C2 as int) == 1_227);
    assert(crate::fx::s_div(2_454, crate::fx::C2) == 1_227);
    assert(crate::shape::s_axial_inertia(cs[3]) == 1_227);
    assert(crate::shape::s_collider_mass(cs[4]) == 39_269);
    assert(crate::shape::s_axial_inertia(cs[4]) == 1_227);
    assert(crate::world::s_link_inertia_prefix(cs, segway, 2, 0) == 0);
    assert(crate::world::s_link_inertia_prefix(cs, segway, 2, 1) == 0);
    assert(crate::world::s_link_inertia_prefix(cs, segway, 2, 2) == 0);
    assert(crate::world::s_link_inertia_prefix(cs, segway, 2, 3) == 0);
    assert(crate::world::s_link_inertia_prefix(cs, segway, 2, 4) == crate::fx::s_add(0, 1_227));
    assert(crate::world::s_link_inertia_prefix(cs, segway, 2, 5) == 1_227);
    assert(crate::world::s_link_inertia_prefix(cs, segway, 3, 0) == 0);
    assert(crate::world::s_link_inertia_prefix(cs, segway, 3, 1) == 0);
    assert(crate::world::s_link_inertia_prefix(cs, segway, 3, 2) == 0);
    assert(crate::world::s_link_inertia_prefix(cs, segway, 3, 3) == 0);
    assert(crate::world::s_link_inertia_prefix(cs, segway, 3, 4) == 0);
    assert(crate::world::s_link_inertia_prefix(cs, segway, 3, 5) == crate::fx::s_add(0, 1_227));
    assert(crate::world::s_link_inertia(cs, segway, 2) == 1_227);
    assert(crate::world::s_link_inertia(cs, segway, 3) == 1_227);
}

/// A step changes no joint's kind and no revolute joint's axis.
proof fn lemma_step_keeps_kinds(j: Joint, gravity: Vec3Fx, dt: i64, contact: bool, inertia: i64)
    ensures
        s_joint_after_step(j, gravity, dt, contact, inertia) is Free <==> j is Free,
        s_joint_after_step(j, gravity, dt, contact, inertia) is Fixed <==> j is Fixed,
        wheel_joint_on_x_axis(s_joint_after_step(j, gravity, dt, contact, inertia))
            <==> wheel_joint_on_x_axis(j),
{
}

/// A motor mutation leaves a joint's local pose untouched: only the axis
/// and angle enter the transform.
proof fn lemma_motor_updates_keep_local_pose(j: Joint, torque: i64, speed: i64)
    ensures
        s_local_pose(motor_torque_updated(j, torque)) == s_local_pose(j),
        s_local_pose(motor_velocity_updated(j, speed)) == s_local_pose(j),
        motor_torque_updated(j, torque) is Revolute <==> j is Revolute,
        motor_velocity_updated(j, speed) is Revolute <==> j is Revolute,
        motor_torque_updated(j, torque) is Free <==> j is Free,
        motor_velocity_updated(j, speed) is Free <==> j is Free,
        motor_torque_updated(j, torque) is Fixed <==> j is Fixed,
        motor_velocity_updated(j, speed) is Fixed <==> j is Fixed,
{
}

/// Updating one joint without moving its coordinates keeps the topology
/// well formed and every stored pose current.
proof fn lemma_joint_swap_keeps_poses(a: Seq<Link>, b: Seq<Link>, idx: int)
    requires
        links_wf(a),
        poses_current(a),
        b.len() == a.len(),
        0 <= idx < a.len(),
        forall|j: int| 0 <= j < a.len() && j != idx ==> #[trigger] b[j] == a[j],
        b[idx].parent == a[idx].parent,
        b[idx].shift == a[idx].shift,
        b[idx].pose == a[idx].pose,
        b[idx].joint is Free <==> a[idx].joint is Free,
        s_local_pose(b[idx].joint) == s_local_pose(a[idx].joint),
        link_in_range(b[idx]),
    ensures
        links_wf(b),
        poses_current(b),
{
    lemma_wf_after_joint_update(a, b, idx);
    assert forall|i: int| 0 <= i < b.len() implies (#[trigger] b[i]).pose == s_link_pose(b, i) by {
        lemma_pose_congruent_local(a, b, i);
        if i != idx {
            assert(b[i] == a[i]);
        }
    }
}

} // verus!
