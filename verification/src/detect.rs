//! The geometric world: contact detection against the static ground.
//!
//! Each step, every non-plane collider of the articulated body is tested
//! against the ground plane: its world pose is derived from its link's
//! pose plus its local offset, and the signed gap between the shape's
//! lowest support point and the plane is compared against a small
//! activation margin. Only contacts inside that band are forwarded to the
//! solver; pairs of directly-jointed links are never tested against each
//! other, and testing of non-adjacent link pairs is a configurable policy.

use vstd::prelude::*;

use crate::fx::fx_sub;
use crate::fx::s_sub;
use crate::linalg::compose;
use crate::linalg::s_compose;
use crate::linalg::Pose;
use crate::multibody::mb_wf;
use crate::multibody::parent_of;
use crate::multibody::Link;
use crate::multibody::Multibody;
use crate::shape::collider_wf;
use crate::shape::colliders_wf;
use crate::shape::Collider;
use crate::shape::ColliderStore;
use crate::shape::Shape;
use crate::store::BodyHandle;

verus! {

/// Contacts are forwarded to the solver only while the signed gap lies
/// below this activation margin.
pub const CONTACT_MARGIN: i64 = 20_000;

/// Interpenetration deeper than this is treated as an invalid spawn
/// configuration and ignored rather than resolved; shallower penetration
/// is forwarded, and the solver stops the approaching velocity.
pub const PENETRATION_CAP: i64 = 100_000;

/// How far below a shape's collider origin its lowest support point lies,
/// with the shape in its working orientation (a wheel hull rests on its
/// radius, a box on its vertical half-extent).
pub open spec fn s_support_down(s: Shape) -> i64 {
    match s {
        Shape::Plane => 0,
        Shape::Cuboid { half_extents } => half_extents.y,
        Shape::ConvexWheel { half_height: _, radius } => radius,
    }
}

/// Signed vertical gap between a collider's lowest point and the ground
/// plane, from its link's derived world pose.
pub open spec fn s_ground_gap(c: Collider, link_pose: Pose) -> i64 {
    s_sub(s_compose(link_pose, c.local_offset).pos.y, s_support_down(c.shape))
}

/// The collider stands inside the contact activation band.
pub open spec fn s_touching(c: Collider, link_pose: Pose) -> bool {
    -PENETRATION_CAP <= s_ground_gap(c, link_pose) && s_ground_gap(c, link_pose) <= CONTACT_MARGIN
}

/// Some collider of the body `body` touches the ground.
pub open spec fn s_any_ground_contact(cs: Seq<Collider>, body: BodyHandle, links: Seq<Link>) -> bool {
    exists|i: int|
        0 <= i < cs.len() && (#[trigger] cs[i]).part.body == body && cs[i].part.link < links.len()
            && !(cs[i].shape is Plane) && s_touching(cs[i], links[cs[i].part.link as int].pose)
}

pub fn support_down(s: &Shape) -> (r: i64)
    requires
        crate::shape::shape_wf(*s),
    ensures
        r == s_support_down(*s),
        crate::fx::fx_in_range(r),
{
    match s {
        Shape::Plane => 0,
        Shape::Cuboid { half_extents } => half_extents.y,
        Shape::ConvexWheel { half_height: _, radius } => *radius,
    }
}

pub fn ground_gap(c: &Collider, link_pose: Pose) -> (r: i64)
    requires
        collider_wf(*c),
        crate::linalg::pose_in_range(link_pose),
    ensures
        r == s_ground_gap(*c, link_pose),
{
    let world = compose(link_pose, c.local_offset);
    fx_sub(world.pos.y, support_down(&c.shape))
}

/// Narrow phase against the ground: does any collider of `body` stand
/// inside the activation band right now?
pub fn any_ground_contact(cs: &ColliderStore, body: BodyHandle, mb: &Multibody) -> (r: bool)
    requires
        colliders_wf(cs),
        mb_wf(mb),
    ensures
        r == s_any_ground_contact(cs.colliders@, body, mb.links@),
{
    let n = cs.count();
    let mut i: usize = 0;
    while i < n
        invariant
            colliders_wf(cs),
            mb_wf(mb),
            n == cs.colliders@.len(),
            0 <= i <= n,
            forall|j: int|
                0 <= j < i ==> !((#[trigger] cs.colliders@[j]).part.body == body
                    && cs.colliders@[j].part.link < mb.links@.len() && !(cs.colliders@[j].shape
                    is Plane) && s_touching(
                    cs.colliders@[j],
                    mb.links@[cs.colliders@[j].part.link as int].pose,
                )),
        decreases n - i,
    {
        let c = cs.colliders[i];
        let is_plane = match c.shape {
            Shape::Plane => true,
            _ => false,
        };
        if c.part.body.index == body.index && c.part.body.generation == body.generation
            && !is_plane && c.part.link < mb.links.len() {
            let l = mb.links[c.part.link];
            let gap = ground_gap(&c, l.pose);
            if -PENETRATION_CAP <= gap && gap <= CONTACT_MARGIN {
                proof {
                    assert(c.part.body == body);
                    assert(s_touching(cs.colliders@[i as int], mb.links@[cs.colliders@[i as int].part.link as int].pose));
                }
                return true;
            }
        }
        i = i + 1;
    }
    false
}

/// Two links directly connected by a joint.
pub open spec fn s_adjacent(links: Seq<Link>, a: int, b: int) -> bool {
    parent_of(links[a]) == b || parent_of(links[b]) == a
}

/// The broad-phase pair-admission policy within one multibody:
/// directly-jointed links are never tested against each other; the
/// remaining distinct pairs are admitted exactly when the non-adjacent
/// self-collision policy is on. The reduced-coordinate solver models no
/// contact response between links of one body — in the fixed topology no
/// admitted pair can touch — so this rule stands as the configurable
/// policy for hosts that extend the collision pipeline.
pub fn should_test_pair(mb: &Multibody, a: usize, b: usize, test_non_adjacent: bool) -> (r: bool)
    requires
        mb_wf(mb),
        a < mb.links@.len(),
        b < mb.links@.len(),
    ensures
        r == (a != b && !s_adjacent(mb.links@, a as int, b as int) && test_non_adjacent),
{
    if a == b {
        return false;
    }
    let la = mb.links[a];
    let lb = mb.links[b];
    let adjacent = match (la.parent, lb.parent) {
        (Some(pa), _) if pa == b => true,
        (_, Some(pb)) if pb == a => true,
        _ => false,
    };
    !adjacent && test_non_adjacent
}

} // verus!
