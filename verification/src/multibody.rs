//! The multibody: an ordered tree of rigid links joined to their parents.
//!
//! Link indices are assigned at construction, never change, and are the
//! addressing scheme for every query. Each link's world pose is derived by
//! forward kinematics: the link's joint frame is its parent's joint frame
//! composed with the joint's local transform, and the link's own pose is
//! that frame translated on by the configured body shift.

use vstd::prelude::*;

use crate::errors::PhysicsError;
use crate::joint::joint_wf;
use crate::joint::s_local_pose;
use crate::joint::FreeState;
use crate::joint::Joint;
use crate::linalg::compose;
use crate::linalg::pose_in_range;
use crate::linalg::qrot;
use crate::linalg::s_compose;
use crate::linalg::s_qrot;
use crate::linalg::s_vadd;
use crate::linalg::v3_in_range;
use crate::linalg::vadd;
use crate::linalg::Pose;
use crate::linalg::Vec3Fx;

verus! {

/// One rigid segment of the multibody.
#[derive(Clone, Copy, Debug)]
pub struct Link {
    /// Index of the parent link; the root has none.
    pub parent: Option<usize>,
    /// The joint connecting this link to its parent (world, for the root).
    pub joint: Joint,
    /// Body-frame shift: the link's own frame sits at its joint frame
    /// translated on by this offset; children attach at the joint frame.
    pub shift: Vec3Fx,
    /// Diagnostic name; never interpreted.
    pub name: &'static str,
    /// World pose, recomputed by forward kinematics; never authoritative.
    pub pose: Pose,
}

pub open spec fn parent_of(l: Link) -> int {
    match l.parent {
        Option::Some(p) => p as int,
        Option::None => -1,
    }
}

pub open spec fn link_in_range(l: Link) -> bool {
    &&& joint_wf(l.joint)
    &&& v3_in_range(l.shift)
    &&& pose_in_range(l.pose)
}

/// Well-formed topology: one root with the free joint, every other link
/// joined to an earlier link by a fixed or revolute joint.
pub open spec fn links_wf(links: Seq<Link>) -> bool {
    &&& 1 <= links.len()
    &&& parent_of(links[0]) == -1
    &&& links[0].joint is Free
    &&& forall|i: int|
        1 <= i < links.len() ==> 0 <= parent_of(#[trigger] links[i]) < i && !(links[i].joint
            is Free)
    &&& forall|i: int| 0 <= i < links.len() ==> link_in_range(#[trigger] links[i])
}

/// The joint frame of link `i`: ancestor joint transforms composed from the
/// root down.
pub open spec fn s_joint_frame(links: Seq<Link>, i: int) -> Pose
    decreases i,
    when 0 <= i < links.len() && links_wf(links)
{
    if i == 0 {
        s_local_pose(links[0].joint)
    } else {
        s_compose(s_joint_frame(links, parent_of(links[i])), s_local_pose(links[i].joint))
    }
}

/// The world pose of link `i`: its joint frame, translated on by the
/// configured body shift; children attach at the frame, not at the
/// shifted pose.
pub open spec fn s_link_pose(links: Seq<Link>, i: int) -> Pose {
    let f = s_joint_frame(links, i);
    Pose { pos: s_vadd(f.pos, s_qrot(f.rot, links[i].shift)), rot: f.rot }
}

/// Every stored pose agrees with forward kinematics.
pub open spec fn poses_current(links: Seq<Link>) -> bool {
    forall|i: int|
        0 <= i < links.len() ==> (#[trigger] links[i]).pose == s_link_pose(links, i)
}

/// Two link sequences with the same joints, parents and shifts.
pub open spec fn same_topology(a: Seq<Link>, b: Seq<Link>) -> bool {
    &&& a.len() == b.len()
    &&& forall|i: int|
        0 <= i < a.len() ==> (#[trigger] b[i]).parent == a[i].parent && b[i].joint == a[i].joint
            && b[i].shift == a[i].shift && b[i].name == a[i].name
}

pub proof fn lemma_frame_in_range(links: Seq<Link>, i: int)
    requires
        links_wf(links),
        0 <= i < links.len(),
    ensures
        pose_in_range(s_joint_frame(links, i)),
    decreases i,
{
    if i > 0 {
        lemma_frame_in_range(links, parent_of(links[i]));
    }
}

/// Joint frames depend only on the topology, not on the stored poses.
pub proof fn lemma_frame_congruent(a: Seq<Link>, b: Seq<Link>, i: int)
    requires
        links_wf(a),
        links_wf(b),
        same_topology(a, b),
        0 <= i < a.len(),
    ensures
        s_joint_frame(a, i) == s_joint_frame(b, i),
    decreases i,
{
    if i > 0 {
        lemma_frame_congruent(a, b, parent_of(a[i]));
    }
}

/// World poses depend only on the topology, not on the stored poses.
pub proof fn lemma_pose_congruent(a: Seq<Link>, b: Seq<Link>, i: int)
    requires
        links_wf(a),
        links_wf(b),
        same_topology(a, b),
        0 <= i < a.len(),
    ensures
        s_link_pose(a, i) == s_link_pose(b, i),
{
    lemma_frame_congruent(a, b, i);
}

/// Joint frames depend on the joints only through their local poses.
pub proof fn lemma_frame_congruent_local(a: Seq<Link>, b: Seq<Link>, i: int)
    requires
        links_wf(a),
        links_wf(b),
        a.len() == b.len(),
        forall|j: int|
            0 <= j < a.len() ==> (#[trigger] b[j]).parent == a[j].parent && b[j].shift
                == a[j].shift && s_local_pose(b[j].joint) == s_local_pose(a[j].joint),
        0 <= i < a.len(),
    ensures
        s_joint_frame(a, i) == s_joint_frame(b, i),
    decreases i,
{
    if i > 0 {
        lemma_frame_congruent_local(a, b, parent_of(a[i]));
    }
}

/// World poses depend on the joints only through their local poses.
pub proof fn lemma_pose_congruent_local(a: Seq<Link>, b: Seq<Link>, i: int)
    requires
        links_wf(a),
        links_wf(b),
        a.len() == b.len(),
        forall|j: int|
            0 <= j < a.len() ==> (#[trigger] b[j]).parent == a[j].parent && b[j].shift
                == a[j].shift && s_local_pose(b[j].joint) == s_local_pose(a[j].joint),
        0 <= i < a.len(),
    ensures
        s_link_pose(a, i) == s_link_pose(b, i),
{
    lemma_frame_congruent_local(a, b, i);
}

pub struct Multibody {
    pub links: Vec<Link>,
}

pub open spec fn mb_wf(mb: &Multibody) -> bool {
    links_wf(mb.links@)
}

impl Multibody {
    /// A multibody holding only its root link, suspended on a free joint at
    /// the given state.
    pub fn with_root(root: FreeState, name: &'static str, shift: Vec3Fx) -> (r: Multibody)
        requires
            joint_wf(Joint::Free(root)),
            v3_in_range(shift),
        ensures
            mb_wf(&r),
            r.links@.len() == 1,
            r.links@[0].joint == Joint::Free(root),
            r.links@[0].shift == shift,
            r.links@[0].parent is None,
            r.links@[0].name == name,
    {
        let mut links: Vec<Link> = Vec::new();
        links.push(
            Link {
                parent: None,
                joint: Joint::Free(root),
                shift,
                name,
                pose: Pose::identity(),
            },
        );
        Multibody { links }
    }

    /// Add a link under `parent`. A free joint may stand only at the root,
    /// and the parent must already exist.
    pub fn add_link(&mut self, parent: usize, joint: Joint, name: &'static str, shift: Vec3Fx) -> (r:
        Result<usize, PhysicsError>)
        requires
            mb_wf(old(self)),
            joint_wf(joint),
            v3_in_range(shift),
            old(self).links@.len() < usize::MAX,
        ensures
            mb_wf(final(self)),
            match r {
                Result::Ok(idx) => {
                    &&& parent < old(self).links@.len()
                    &&& !(joint is Free)
                    &&& idx == old(self).links@.len()
                    &&& final(self).links@ == old(self).links@.push(
                        (Link {
                            parent: Some(parent),
                            joint,
                            shift,
                            name,
                            pose: (Pose {
                                pos: (Vec3Fx { x: 0, y: 0, z: 0 }),
                                rot: (crate::linalg::QuatFx { x: 0, y: 0, z: 0, w: crate::fx::SCALE }),
                            }),
                        }),
                    )
                },
                Result::Err(e) => {
                    &&& final(self).links@ == old(self).links@
                    &&& (e == PhysicsError::LinkNotFound || e == PhysicsError::InvalidJointKind)
                    &&& (e == PhysicsError::LinkNotFound <==> parent >= old(self).links@.len())
                    &&& (e == PhysicsError::InvalidJointKind <==> parent < old(self).links@.len()
                        && joint is Free)
                },
            },
    {
        if parent >= self.links.len() {
            return Err(PhysicsError::LinkNotFound);
        }
        if let Joint::Free(_) = joint {
            return Err(PhysicsError::InvalidJointKind);
        }
        let idx = self.links.len();
        self.links.push(
            Link { parent: Some(parent), joint, shift, name, pose: Pose::identity() },
        );
        proof {
            assert forall|i: int|
                1 <= i < self.links@.len() implies 0 <= parent_of(#[trigger] self.links@[i]) < i
                && !(self.links@[i].joint is Free) by {
                if i < old(self).links@.len() {
                    assert(self.links@[i] == old(self).links@[i]);
                }
            }
        }
        Ok(idx)
    }

    pub fn link_count(&self) -> (r: usize)
        ensures
            r == self.links@.len(),
    {
        self.links.len()
    }

    /// The link at `index`, or `LinkNotFound` when the index is out of
    /// range.
    pub fn link(&self, index: usize) -> (r: Result<Link, PhysicsError>)
        ensures
            r == if index < self.links@.len() {
                Result::<Link, PhysicsError>::Ok(self.links@[index as int])
            } else {
                Result::<Link, PhysicsError>::Err(PhysicsError::LinkNotFound)
            },
    {
        if index < self.links.len() {
            Ok(self.links[index])
        } else {
            Err(PhysicsError::LinkNotFound)
        }
    }

    /// Recompute every link's world pose from the current generalized
    /// coordinates, root first.
    #[verifier::rlimit(80)]
    pub fn update_kinematics(&mut self)
        requires
            mb_wf(old(self)),
        ensures
            mb_wf(final(self)),
            same_topology(old(self).links@, final(self).links@),
            poses_current(final(self).links@),
            forall|i: int|
                0 <= i < final(self).links@.len() ==> (#[trigger] final(self).links@[i]).pose == s_link_pose(
                    old(self).links@,
                    i,
                ),
    {
        let ghost links0 = self.links@;
        let n = self.links.len();
        let mut frames: Vec<Pose> = Vec::new();
        let mut i: usize = 0;
        while i < n
            invariant
                self.links@ == links0,
                links_wf(links0),
                n == links0.len(),
                0 <= i <= n,
                frames@.len() == i,
                forall|j: int|
                    0 <= j < i ==> #[trigger] frames@[j] == s_joint_frame(links0, j)
                        && pose_in_range(frames@[j]),
            decreases n - i,
        {
            let l = self.links[i];
            let local = l.joint.local_pose();
            let fr: Pose = match l.parent {
                None => local,
                Some(p) => {
                    assert(parent_of(links0[i as int]) == p as int);
                    compose(frames[p], local)
                },
            };
            proof {
                if i == 0 {
                    assert(fr == s_joint_frame(links0, 0));
                } else {
                    assert(fr == s_joint_frame(links0, i as int));
                }
            }
            frames.push(fr);
            i = i + 1;
        }
        let mut k: usize = 0;
        while k < n
            invariant
                links_wf(links0),
                n == links0.len(),
                self.links@.len() == n,
                0 <= k <= n,
                frames@.len() == n,
                same_topology(links0, self.links@),
                forall|j: int|
                    0 <= j < n ==> #[trigger] frames@[j] == s_joint_frame(links0, j)
                        && pose_in_range(frames@[j]),
                forall|j: int|
                    0 <= j < k ==> (#[trigger] self.links@[j]).pose == s_link_pose(links0, j),
                forall|j: int|
                    k <= j < n ==> #[trigger] self.links@[j] == links0[j],
                links_wf(self.links@),
            decreases n - k,
        {
            let l = self.links[k];
            let fr = frames[k];
            let p = Pose { pos: vadd(fr.pos, qrot(fr.rot, l.shift)), rot: fr.rot };
            self.links[k] = Link { pose: p, ..l };
            proof {
                assert(self.links@[k as int].pose == s_link_pose(links0, k as int));
                assert forall|i2: int|
                    1 <= i2 < self.links@.len() implies 0 <= parent_of(
                    #[trigger] self.links@[i2],
                ) < i2 && !(self.links@[i2].joint is Free) by {
                    assert(self.links@[i2].parent == links0[i2].parent);
                    assert(self.links@[i2].joint == links0[i2].joint);
                }
            }
            k = k + 1;
        }
        proof {
            assert forall|i2: int|
                0 <= i2 < self.links@.len() implies (#[trigger] self.links@[i2]).pose
                == s_link_pose(self.links@, i2) by {
                lemma_pose_congruent(links0, self.links@, i2);
            }
        }
    }

    /// Apply a motor mutation to the joint of link `index`. The change
    /// takes effect on the next step: stored poses are untouched.
    pub fn set_link_max_motor_torque(&mut self, index: usize, torque: i64) -> (r: Result<
        (),
        PhysicsError,
    >)
        requires
            mb_wf(old(self)),
            crate::fx::fx_in_range(torque),
        ensures
            mb_wf(final(self)),
            same_topology_except_motor(old(self).links@, final(self).links@, index as int),
            match r {
                Result::Ok(_) => index < old(self).links@.len() && old(self).links@[index as int].joint
                    is Revolute && final(self).links@ == old(self).links@.update(
                    index as int,
                    (Link {
                        joint: motor_torque_updated(old(self).links@[index as int].joint, torque),
                        ..old(self).links@[index as int]
                    }),
                ),
                Result::Err(e) => final(self).links@ == old(self).links@ && ((e
                    == PhysicsError::LinkNotFound && index >= old(self).links@.len()) || (e
                    == PhysicsError::InvalidJointKind && index < old(self).links@.len() && !(old(
                    self,
                ).links@[index as int].joint is Revolute))),
            },
    {
        if index >= self.links.len() {
            return Err(PhysicsError::LinkNotFound);
        }
        let mut l = self.links[index];
        let r = l.joint.set_max_motor_torque(torque);
        match r {
            Ok(_) => {
                self.links[index] = l;
                proof {
                    lemma_wf_after_joint_update(old(self).links@, self.links@, index as int);
                }
                Ok(())
            },
            Err(e) => Err(e),
        }
    }

    /// As `set_link_max_motor_torque`, for the motor's target velocity.
    pub fn set_link_desired_motor_velocity(&mut self, index: usize, speed: i64) -> (r: Result<
        (),
        PhysicsError,
    >)
        requires
            mb_wf(old(self)),
            crate::fx::fx_in_range(speed),
        ensures
            mb_wf(final(self)),
            same_topology_except_motor(old(self).links@, final(self).links@, index as int),
            match r {
                Result::Ok(_) => index < old(self).links@.len() && old(self).links@[index as int].joint
                    is Revolute && final(self).links@ == old(self).links@.update(
                    index as int,
                    (Link {
                        joint: motor_velocity_updated(old(self).links@[index as int].joint, speed),
                        ..old(self).links@[index as int]
                    }),
                ),
                Result::Err(e) => final(self).links@ == old(self).links@ && ((e
                    == PhysicsError::LinkNotFound && index >= old(self).links@.len()) || (e
                    == PhysicsError::InvalidJointKind && index < old(self).links@.len() && !(old(
                    self,
                ).links@[index as int].joint is Revolute))),
            },
    {
        if index >= self.links.len() {
            return Err(PhysicsError::LinkNotFound);
        }
        let mut l = self.links[index];
        let r = l.joint.set_desired_motor_velocity(speed);
        match r {
            Ok(_) => {
                self.links[index] = l;
                proof {
                    lemma_wf_after_joint_update(old(self).links@, self.links@, index as int);
                }
                Ok(())
            },
            Err(e) => Err(e),
        }
    }

    /// As `set_link_max_motor_torque`, for switching the motor on or off.
    pub fn set_link_motor_enabled(&mut self, index: usize, on: bool) -> (r: Result<
        (),
        PhysicsError,
    >)
        requires
            mb_wf(old(self)),
        ensures
            mb_wf(final(self)),
            same_topology_except_motor(old(self).links@, final(self).links@, index as int),
            match r {
                Result::Ok(_) => index < old(self).links@.len() && old(self).links@[index as int].joint
                    is Revolute && final(self).links@ == old(self).links@.update(
                    index as int,
                    (Link {
                        joint: motor_enabled_updated(old(self).links@[index as int].joint, on),
                        ..old(self).links@[index as int]
                    }),
                ),
                Result::Err(e) => final(self).links@ == old(self).links@ && ((e
                    == PhysicsError::LinkNotFound && index >= old(self).links@.len()) || (e
                    == PhysicsError::InvalidJointKind && index < old(self).links@.len() && !(old(
                    self,
                ).links@[index as int].joint is Revolute))),
            },
    {
        if index >= self.links.len() {
            return Err(PhysicsError::LinkNotFound);
        }
        let mut l = self.links[index];
        let r = l.joint.set_motor_enabled(on);
        match r {
            Ok(_) => {
                self.links[index] = l;
                proof {
                    lemma_wf_after_joint_update(old(self).links@, self.links@, index as int);
                }
                Ok(())
            },
            Err(e) => Err(e),
        }
    }
}

/// The joint of `j` with its motor torque bound replaced (negative bounds
/// clamp to zero); meaningful only for revolute joints.
pub open spec fn motor_torque_updated(j: Joint, torque: i64) -> Joint {
    match j {
        Joint::Revolute(rs) => Joint::Revolute(
            (crate::joint::RevoluteState {
                motor: (crate::joint::MotorState {
                    max_torque: if torque < 0 {
                        0
                    } else {
                        torque
                    },
                    ..rs.motor
                }),
                ..rs
            }),
        ),
        _ => j,
    }
}

/// The joint of `j` with its motor target velocity replaced.
pub open spec fn motor_velocity_updated(j: Joint, speed: i64) -> Joint {
    match j {
        Joint::Revolute(rs) => Joint::Revolute(
            (crate::joint::RevoluteState {
                motor: (crate::joint::MotorState { desired_velocity: speed, ..rs.motor }),
                ..rs
            }),
        ),
        _ => j,
    }
}

/// The joint of `j` with its motor switched on or off.
pub open spec fn motor_enabled_updated(j: Joint, on: bool) -> Joint {
    match j {
        Joint::Revolute(rs) => Joint::Revolute(
            (crate::joint::RevoluteState {
                motor: (crate::joint::MotorState { enabled: on, ..rs.motor }),
                ..rs
            }),
        ),
        _ => j,
    }
}

/// Two link sequences that agree everywhere except possibly in the motor
/// state of one revolute joint.
pub open spec fn same_topology_except_motor(a: Seq<Link>, b: Seq<Link>, i: int) -> bool {
    &&& a.len() == b.len()
    &&& forall|j: int| 0 <= j < a.len() && j != i ==> #[trigger] b[j] == a[j]
    &&& (0 <= i < a.len() ==> b[i].parent == a[i].parent && b[i].shift == a[i].shift && b[i].pose
        == a[i].pose)
}

/// Replacing one joint by another non-free joint of the same kind keeps the
/// topology well formed.
pub proof fn lemma_wf_after_joint_update(a: Seq<Link>, b: Seq<Link>, i: int)
    requires
        links_wf(a),
        b.len() == a.len(),
        0 <= i < a.len(),
        forall|j: int| 0 <= j < a.len() && j != i ==> #[trigger] b[j] == a[j],
        b[i].parent == a[i].parent,
        b[i].shift == a[i].shift,
        b[i].pose == a[i].pose,
        b[i].joint is Free <==> a[i].joint is Free,
        link_in_range(b[i]),
    ensures
        links_wf(b),
{
    assert(parent_of(b[0]) == parent_of(a[0]));
    assert forall|j: int|
        1 <= j < b.len() implies 0 <= parent_of(#[trigger] b[j]) < j && !(b[j].joint is Free) by {
        if j != i {
            assert(b[j] == a[j]);
        } else {
            assert(parent_of(b[j]) == parent_of(a[j]));
        }
    }
    assert forall|j: int| 0 <= j < b.len() implies link_in_range(#[trigger] b[j]) by {
        if j != i {
            assert(b[j] == a[j]);
        }
    }
}

} // verus!
