//! Skinning: the pose of a frame is written into the joints, the transforms cascade
//! from parents to children, and every joint gets its skinning matrix.

use glam::Mat4;
use vstd::prelude::*;

use crate::animation::AnimationTransform;
use crate::clip::NodeAnimationTransform;
use crate::error::{AnimationError, SkinError};
use crate::joints::{joint_views, parents_first, Joint, JointView};
use crate::linalg::{mat4_mul, matrix_product};
use crate::playback::Animations;
use crate::transform::Transform;

verus! {

/// The greatest number of joints that the shader takes.
pub const MAX_JOINT_TRANSFORMS: usize = 256;

/// The transform `t` with one component overwritten by `by`.
pub open spec fn overwritten(t: Transform, by: AnimationTransform) -> Transform {
    match by {
        AnimationTransform::Translation(translation) => Transform { translation, ..t },
        AnimationTransform::Rotation(rotation) => Transform { rotation, ..t },
        AnimationTransform::Scale(scale) => Transform { scale, ..t },
    }
}

/// The transform `t` of the node `node` after the first `n` entries of `pose` were
/// applied in order: each entry for `node` overwrites its component.
pub open spec fn posed(t: Transform, node: usize, pose: Seq<NodeAnimationTransform>, n: nat) -> Transform
    decreases n,
{
    if n == 0 {
        t
    } else {
        let before = posed(t, node, pose, (n - 1) as nat);
        if pose[n - 1].node == node {
            overwritten(before, pose[n - 1].transform)
        } else {
            before
        }
    }
}

/// The joint `joint` with the pose `pose` applied to its transform.
pub open spec fn posed_joint(joint: JointView, pose: Seq<NodeAnimationTransform>) -> JointView {
    JointView { transform: posed(joint.transform, joint.node_index, pose, pose.len()), ..joint }
}

/// The joints `joints` with the pose `pose` applied to each.
pub open spec fn posed_joints(joints: Seq<JointView>, pose: Seq<NodeAnimationTransform>) -> Seq<
    JointView,
> {
    Seq::new(joints.len(), |i: int| posed_joint(joints[i], pose))
}

/// The world transform of the joint `i`: its local matrix, taken into the world by
/// the world transform of its parent, or by `outer` for a root.
pub open spec fn world_of(joints: Seq<JointView>, outer: Mat4, i: nat) -> Mat4
    decreases i,
{
    let local = joints[i as int].transform.matrix_spec();
    match joints[i as int].parent {
        Some(p) => if p < i {
            matrix_product(world_of(joints, outer, p as nat), local)
        } else {
            matrix_product(outer, local)
        },
        None => matrix_product(outer, local),
    }
}

/// The skinning matrix of the joint `i`: its world transform times its inverse bind
/// matrix.
pub open spec fn skin_of(joints: Seq<JointView>, outer: Mat4, i: nat) -> Mat4 {
    matrix_product(world_of(joints, outer, i), joints[i as int].inverse_bind_matrix)
}

/// The world transforms of all joints, in the order of the joints.
pub open spec fn world_transforms_of(joints: Seq<JointView>, outer: Mat4) -> Seq<Mat4> {
    Seq::new(joints.len(), |i: int| world_of(joints, outer, i as nat))
}

/// The skinning matrices of all joints, in the order of the joints.
pub open spec fn skin_matrices_of(joints: Seq<JointView>, outer: Mat4) -> Seq<Mat4> {
    Seq::new(joints.len(), |i: int| skin_of(joints, outer, i as nat))
}

/// What keeps a skeleton from being skinned, if anything: its size, then the order
/// of its joints.
pub open spec fn skin_fault(joints: Seq<JointView>) -> Option<SkinError> {
    if joints.len() > MAX_JOINT_TRANSFORMS {
        Some(SkinError::TooManyJoints)
    } else if !parents_first(joints) {
        Some(SkinError::ParentOutOfOrder)
    } else {
        None
    }
}

/// The cascade: a root stands in the world at `outer` times its local matrix, and
/// every other joint at the world transform of its parent times its local matrix.
pub proof fn lemma_cascade(joints: Seq<JointView>, outer: Mat4, i: int)
    requires
        parents_first(joints),
        0 <= i < joints.len(),
    ensures
        joints[i].parent.is_none() ==> world_of(joints, outer, i as nat) == matrix_product(
            outer,
            joints[i].transform.matrix_spec(),
        ),
        joints[i].parent.is_some() ==> world_of(joints, outer, i as nat) == matrix_product(
            world_of(joints, outer, joints[i].parent->0 as nat),
            joints[i].transform.matrix_spec(),
        ),
{
}

/// A pose that has no entry for a node leaves the transform of that node as it is.
pub proof fn lemma_posed_without_entry(
    t: Transform,
    node: usize,
    pose: Seq<NodeAnimationTransform>,
    n: nat,
)
    requires
        n <= pose.len(),
        forall|k: int| 0 <= k < n ==> (#[trigger] pose[k]).node != node,
    ensures
        posed(t, node, pose, n) == t,
    decreases n,
{
    if n > 0 {
        lemma_posed_without_entry(t, node, pose, (n - 1) as nat);
    }
}

/// The pose changes the transforms of the joints and nothing else: parents stay
/// where they are.
pub proof fn lemma_posed_joints_order(joints: Seq<JointView>, pose: Seq<NodeAnimationTransform>)
    ensures
        parents_first(posed_joints(joints, pose)) == parents_first(joints),
        skin_fault(posed_joints(joints, pose)) == skin_fault(joints),
{
    let after = posed_joints(joints, pose);
    if parents_first(joints) {
        assert forall|k: int| 0 <= k < after.len() implies match (#[trigger] after[k]).parent {
            Some(p) => p < k,
            None => true,
        } by {
            assert(after[k].parent == joints[k].parent);
        }
    }
    if parents_first(after) {
        assert forall|k: int| 0 <= k < joints.len() implies match (#[trigger] joints[k]).parent {
            Some(p) => p < k,
            None => true,
        } by {
            assert(after[k].parent == joints[k].parent);
        }
    }
}

/// Whether every joint that names a parent stands after it.
pub fn check_order(joints: &Vec<Joint>) -> (ordered: bool)
    ensures
        ordered == parents_first(joint_views(joints@)),
{
    let mut i: usize = 0;
    while i < joints.len()
        invariant
            i <= joints.len(),
            forall|k: int|
                0 <= k < i ==> match (#[trigger] joint_views(joints@)[k]).parent {
                    Some(p) => p < k,
                    None => true,
                },
        decreases joints.len() - i,
    {
        assert(joint_views(joints@)[i as int] == joints@[i as int]@);
        match joints[i].parent {
            Some(p) => {
                if p >= i {
                    return false;
                }
            },
            None => {},
        }
        i += 1;
    }
    true
}

/// Writes the pose of the frame into the joints: every entry of `pose` overwrites
/// its component of the transform of each joint that stands for its node.
pub fn apply_pose(joints: &mut Vec<Joint>, pose: &Vec<NodeAnimationTransform>)
    ensures
        joint_views(final(joints)@) == posed_joints(joint_views(old(joints)@), pose@),
{
    let n = joints.len();
    let mut i: usize = 0;
    while i < n
        invariant
            i <= n,
            n == joints.len(),
            n == old(joints).len(),
            forall|j: int|
                0 <= j < i ==> (#[trigger] joints@[j])@ == posed_joint(old(joints)@[j]@, pose@),
            forall|j: int| i <= j < n ==> (#[trigger] joints@[j]) == old(joints)@[j],
        decreases n - i,
    {
        let node = joints[i].node_index;
        let mut transform = joints[i].transform;
        let mut k: usize = 0;
        while k < pose.len()
            invariant
                k <= pose.len(),
                transform == posed(old(joints)@[i as int].transform, node, pose@, k as nat),
            decreases pose.len() - k,
        {
            if pose[k].node == node {
                match pose[k].transform {
                    AnimationTransform::Translation(translation) => {
                        transform.translation = translation;
                    },
                    AnimationTransform::Rotation(rotation) => {
                        transform.rotation = rotation;
                    },
                    AnimationTransform::Scale(scale) => {
                        transform.scale = scale;
                    },
                }
            }
            k += 1;
        }
        joints[i].transform = transform;
        i += 1;
    }
}

/// Cascades the transforms from parents to children. Parents stand before their
/// children, so one pass over the joints is enough.
pub fn world_transforms(joints: &Vec<Joint>, outer_transform: &Mat4) -> (world: Vec<Mat4>)
    requires
        parents_first(joint_views(joints@)),
    ensures
        world@ == world_transforms_of(joint_views(joints@), *outer_transform),
{
    let ghost views = joint_views(joints@);
    let mut world: Vec<Mat4> = Vec::new();
    let mut i: usize = 0;
    while i < joints.len()
        invariant
            i <= joints.len(),
            views == joint_views(joints@),
            parents_first(views),
            world.len() == i,
            forall|k: int| 0 <= k < i ==> world[k] == world_of(views, *outer_transform, k as nat),
        decreases joints.len() - i,
    {
        assert(views[i as int] == joints@[i as int]@);
        let local = joints[i].transform.matrix();
        let transform = match joints[i].parent {
            Some(parent_index) => mat4_mul(&world[parent_index], &local),
            None => mat4_mul(outer_transform, &local),
        };
        world.push(transform);
        i += 1;
    }
    world
}

/// Multiplies every world transform by the inverse bind matrix of its joint.
pub fn skin_matrices(joints: &Vec<Joint>, world: &Vec<Mat4>) -> (matrices: Vec<Mat4>)
    requires
        world.len() == joints.len(),
    ensures
        matrices.len() == joints.len(),
        forall|i: int|
            0 <= i < joints.len() ==> matrices[i] == matrix_product(
                world[i],
                (#[trigger] joints[i]).inverse_bind_matrix,
            ),
{
    let mut matrices: Vec<Mat4> = Vec::new();
    let mut i: usize = 0;
    while i < joints.len()
        invariant
            i <= joints.len(),
            world.len() == joints.len(),
            matrices.len() == i,
            forall|k: int|
                0 <= k < i ==> matrices[k] == matrix_product(
                    world[k],
                    (#[trigger] joints[k]).inverse_bind_matrix,
                ),
        decreases joints.len() - i,
    {
        matrices.push(mat4_mul(&world[i], &joints[i].inverse_bind_matrix));
        i += 1;
    }
    matrices
}

/// The joint matrices that go to the shader.
#[derive(Debug, PartialEq)]
pub struct JointTransforms {
    pub matrices: Vec<Mat4>,
}

impl JointTransforms {
    pub fn new() -> (t: JointTransforms)
        ensures
            t.matrices@.len() == 0,
    {
        JointTransforms { matrices: Vec::new() }
    }
}

/// The part of a renderer that poses skeletons: the pose of the current frame, and
/// the matrices of the skeleton that was skinned last.
#[derive(Debug, PartialEq)]
pub struct Renderer {
    /// The transforms that the clip on display gives for the current frame.
    pub node_animation_transforms: Vec<NodeAnimationTransform>,
    /// World transforms of the joints of the skeleton that was skinned last.
    pub world_transforms: Vec<Mat4>,
    /// Skinning matrices of the skeleton that was skinned last.
    pub joint_transforms: JointTransforms,
}

impl Renderer {
    pub fn new() -> (renderer: Renderer)
        ensures
            renderer.node_animation_transforms@.len() == 0,
            renderer.world_transforms@.len() == 0,
            renderer.joint_transforms.matrices@.len() == 0,
    {
        Renderer {
            node_animation_transforms: Vec::new(),
            world_transforms: Vec::new(),
            joint_transforms: JointTransforms::new(),
        }
    }

    /// Moves the animation of a model on to the clock reading `now` and keeps the
    /// pose of the clip on display for this frame. On an error the pose is empty.
    pub fn recalculate_animation(&mut self, animations: &mut Animations, now: i64) -> (done: Result<
        (),
        AnimationError,
    >)
        ensures
            final(animations).animation_control == old(animations).animation_control,
            crate::playback::animation_views(final(animations).animations@) == old(
                animations,
            ).advanced(now),
            final(self).world_transforms == old(self).world_transforms,
            final(self).joint_transforms == old(self).joint_transforms,
            match done {
                Ok(_) => old(animations).frame_pose(now) == Ok::<
                    Seq<NodeAnimationTransform>,
                    AnimationError,
                >(final(self).node_animation_transforms@),
                Err(e) => old(animations).frame_pose(now) == Err::<
                    Seq<NodeAnimationTransform>,
                    AnimationError,
                >(e) && final(self).node_animation_transforms@.len() == 0,
            },
    {
        match animations.recalculate_animation(now) {
            Ok(pose) => {
                self.node_animation_transforms = pose;
                Ok(())
            },
            Err(e) => {
                self.node_animation_transforms = Vec::new();
                Err(e)
            },
        }
    }

    /// Writes the pose of this frame into the joints.
    pub fn apply_joint_transforms(&self, joints: &mut Vec<Joint>)
        ensures
            joint_views(final(joints)@) == posed_joints(
                joint_views(old(joints)@),
                self.node_animation_transforms@,
            ),
    {
        apply_pose(joints, &self.node_animation_transforms);
    }

    /// Recalculates the skinning matrix of each joint.
    ///
    /// The pose of this frame is written into the joints first. A root joint is
    /// taken into the world by `outer_transform`; the transform of the node that
    /// carries the skinned mesh plays no part. On an error nothing changes.
    pub fn recalc_skin_matrices(&mut self, joints: &mut Vec<Joint>, outer_transform: Mat4) -> (done:
        Result<(), SkinError>)
        ensures
            final(self).node_animation_transforms == old(self).node_animation_transforms,
            match done {
                Ok(_) => {
                    &&& skin_fault(joint_views(old(joints)@)).is_none()
                    &&& final(self).joint_transforms.matrices@.len() == old(joints)@.len()
                    &&& old(joints)@.len() <= MAX_JOINT_TRANSFORMS
                    &&& joint_views(final(joints)@) == posed_joints(
                        joint_views(old(joints)@),
                        old(self).node_animation_transforms@,
                    )
                    &&& final(self).world_transforms@ == world_transforms_of(
                        joint_views(final(joints)@),
                        outer_transform,
                    )
                    &&& final(self).joint_transforms.matrices@ == skin_matrices_of(
                        joint_views(final(joints)@),
                        outer_transform,
                    )
                },
                Err(e) => {
                    &&& skin_fault(joint_views(old(joints)@)) == Some(e)
                    &&& *final(joints) == *old(joints)
                    &&& *final(self) == *old(self)
                },
            },
    {
        if joints.len() > MAX_JOINT_TRANSFORMS {
            return Err(SkinError::TooManyJoints);
        }
        if !check_order(joints) {
            return Err(SkinError::ParentOutOfOrder);
        }
        proof {
            lemma_posed_joints_order(joint_views(joints@), self.node_animation_transforms@);
        }
        self.apply_joint_transforms(joints);
        let world = world_transforms(joints, &outer_transform);
        let matrices = skin_matrices(joints, &world);
        assert(matrices@ =~= skin_matrices_of(joint_views(joints@), outer_transform));
        self.world_transforms = world;
        self.joint_transforms.matrices = matrices;
        Ok(())
    }
}

} // verus!
