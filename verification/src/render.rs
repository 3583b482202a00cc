//! What a frame draws: the walk over the nodes of a model that decides, for every
//! node, with which matrices its mesh and its skeleton are drawn.

use glam::Mat4;
use vstd::prelude::*;

use crate::clip::NodeAnimationTransform;
use crate::error::{FrameError, SkinError};
use crate::gui::Gui;
use crate::joints::{JointView, Joints};
use crate::linalg::{mat4_mul, matrix_product};
use crate::model::{lemma_node_view, node_views, skeleton_views, Model, Node, NodeView};
use crate::playback::animation_views;
use crate::skinning::{
    apply_pose, check_order, posed_joints, skin_fault, skin_matrices, skin_matrices_of,
    world_transforms, world_transforms_of, Renderer, MAX_JOINT_TRANSFORMS,
};

verus! {

/// The matrices of a skeleton for one frame.
#[derive(Debug, PartialEq)]
pub struct SkinPose {
    /// Index of the skeleton among the skeletons of the model.
    pub skeleton: usize,
    /// The world transform of each joint, for a view of the skeleton.
    pub world_transforms: Vec<Mat4>,
    /// The skinning matrix of each joint, for the shader.
    pub matrices: Vec<Mat4>,
}

/// What is drawn for one node.
#[derive(Debug, PartialEq)]
pub struct DrawItem {
    /// The index of the node in the asset.
    pub node: usize,
    /// Handle of the mesh to draw, if the node has one and meshes are shown.
    pub mesh: Option<usize>,
    /// The transform of the node in the world.
    pub transform: Mat4,
    /// The matrices of the skeleton of the node. A mesh is skinned exactly when its
    /// node has them.
    pub skin: Option<SkinPose>,
}

/// The matrices of a skeleton for one frame, as sequences.
pub struct SkinPoseView {
    pub skeleton: usize,
    pub world_transforms: Seq<Mat4>,
    pub matrices: Seq<Mat4>,
}

/// What is drawn for one node, with sequences for vectors.
pub struct DrawItemView {
    pub node: usize,
    pub mesh: Option<usize>,
    pub transform: Mat4,
    pub skin: Option<SkinPoseView>,
}

impl View for SkinPose {
    type V = SkinPoseView;

    open spec fn view(&self) -> SkinPoseView {
        SkinPoseView {
            skeleton: self.skeleton,
            world_transforms: self.world_transforms@,
            matrices: self.matrices@,
        }
    }
}

impl View for DrawItem {
    type V = DrawItemView;

    open spec fn view(&self) -> DrawItemView {
        DrawItemView {
            node: self.node,
            mesh: self.mesh,
            transform: self.transform,
            skin: match self.skin {
                Some(skin) => Some(skin@),
                None => None,
            },
        }
    }
}

/// The views of a sequence of draw items.
pub open spec fn item_views(items: Seq<DrawItem>) -> Seq<DrawItemView> {
    Seq::new(items.len(), |i: int| items[i]@)
}

/// The matrices of the skeleton of a node whose parent stands in the world at
/// `outer`; none for a node without skeleton.
///
/// The transform of the node itself plays no part: the roots of the skeleton are
/// taken into the world by `outer`.
pub open spec fn skin_pose_of(node: NodeView, outer: Mat4, skeletons: Seq<Seq<JointView>>) -> Result<
    Option<SkinPoseView>,
    SkinError,
> {
    match node.joints {
        None => Ok(None),
        Some(skeleton) => if skeleton >= skeletons.len() {
            Err(SkinError::UnknownSkeleton)
        } else {
            match skin_fault(skeletons[skeleton as int]) {
                Some(e) => Err(e),
                None => Ok(
                    Some(
                        SkinPoseView {
                            skeleton,
                            world_transforms: world_transforms_of(
                                skeletons[skeleton as int],
                                outer,
                            ),
                            matrices: skin_matrices_of(skeletons[skeleton as int], outer),
                        },
                    ),
                ),
            }
        },
    }
}

/// What is drawn for the subtree of `node`, the node before its children.
///
/// A node stands in the world at `outer` times its own transform, and its children
/// hang on that. A node is listed if it has a skeleton, or a mesh while meshes are
/// shown.
pub open spec fn draws_of_node(
    node: NodeView,
    outer: Mat4,
    skeletons: Seq<Seq<JointView>>,
    mesh_visible: bool,
) -> Result<Seq<DrawItemView>, SkinError>
    decreases node, 0nat,
{
    let transform = matrix_product(outer, node.transform);
    let mesh = if mesh_visible {
        node.mesh
    } else {
        None
    };
    match skin_pose_of(node, outer, skeletons) {
        Err(e) => Err(e),
        Ok(skin) => match draws_of_nodes(node.children, 0, transform, skeletons, mesh_visible) {
            Err(e) => Err(e),
            Ok(below) => if skin.is_some() || mesh.is_some() {
                Ok(seq![DrawItemView { node: node.index, mesh, transform, skin }] + below)
            } else {
                Ok(below)
            },
        },
    }
}

/// What is drawn for the subtrees of `nodes[from..]`, one after the other. The
/// first skeleton that cannot be skinned decides the error.
pub open spec fn draws_of_nodes(
    nodes: Seq<NodeView>,
    from: nat,
    outer: Mat4,
    skeletons: Seq<Seq<JointView>>,
    mesh_visible: bool,
) -> Result<Seq<DrawItemView>, SkinError>
    decreases nodes, nodes.len() - from,
{
    if from >= nodes.len() {
        Ok(Seq::empty())
    } else {
        match draws_of_node(nodes[from as int], outer, skeletons, mesh_visible) {
            Err(e) => Err(e),
            Ok(first) => match draws_of_nodes(nodes, from + 1, outer, skeletons, mesh_visible) {
                Err(e) => Err(e),
                Ok(rest) => Ok(first + rest),
            },
        }
    }
}

/// The skeletons `skeletons` with the pose `pose` applied to each.
pub open spec fn posed_skeletons(
    skeletons: Seq<Seq<JointView>>,
    pose: Seq<NodeAnimationTransform>,
) -> Seq<Seq<JointView>> {
    Seq::new(skeletons.len(), |i: int| posed_joints(skeletons[i], pose))
}

/// Computes the matrices of a skeleton whose roots hang on `outer_transform`.
pub fn skin_pose(skeleton: usize, joints: &Joints, outer_transform: &Mat4) -> (pose: Result<
    SkinPose,
    SkinError,
>)
    ensures
        match pose {
            Ok(pose) => skin_fault(joints@).is_none() && pose@ == (SkinPoseView {
                skeleton,
                world_transforms: world_transforms_of(joints@, *outer_transform),
                matrices: skin_matrices_of(joints@, *outer_transform),
            }),
            Err(e) => skin_fault(joints@) == Some(e),
        },
{
    if joints.joints.len() > MAX_JOINT_TRANSFORMS {
        return Err(SkinError::TooManyJoints);
    }
    if !check_order(&joints.joints) {
        return Err(SkinError::ParentOutOfOrder);
    }
    let world = world_transforms(&joints.joints, outer_transform);
    let matrices = skin_matrices(&joints.joints, &world);
    assert(matrices@ =~= skin_matrices_of(joints@, *outer_transform));
    Ok(SkinPose { skeleton, world_transforms: world, matrices })
}

impl Renderer {
    /// Walks the subtree of `node` and appends to `items` what is drawn for it.
    /// `outer_transform` is where the parent of `node` stands in the world.
    pub fn render_node(
        node: &Node,
        outer_transform: &Mat4,
        skeletons: &Vec<Joints>,
        mesh_visible: bool,
        items: &mut Vec<DrawItem>,
    ) -> (done: Result<(), SkinError>)
        ensures
            match done {
                Ok(_) => {
                    let draws = draws_of_node(
                        node@,
                        *outer_transform,
                        skeleton_views(skeletons@),
                        mesh_visible,
                    );
                    draws.is_ok() && item_views(final(items)@) == item_views(old(items)@)
                        + draws->Ok_0
                },
                Err(e) => draws_of_node(
                    node@,
                    *outer_transform,
                    skeleton_views(skeletons@),
                    mesh_visible,
                ) == Err::<Seq<DrawItemView>, SkinError>(e),
            },
        decreases node,
    {
        proof {
            lemma_node_view(*node);
        }
        let ghost views = skeleton_views(skeletons@);
        let next_level_transform = mat4_mul(outer_transform, &node.transform);
        let skin = match node.joints {
            Some(skeleton) => {
                if skeleton >= skeletons.len() {
                    return Err(SkinError::UnknownSkeleton);
                }
                match skin_pose(skeleton, &skeletons[skeleton], outer_transform) {
                    Ok(pose) => Some(pose),
                    Err(e) => {
                        return Err(e);
                    },
                }
            },
            None => None,
        };
        let mesh = if mesh_visible {
            node.mesh
        } else {
            None
        };
        let ghost own: Seq<DrawItemView> = Seq::empty();
        if skin.is_some() || mesh.is_some() {
            let item = DrawItem { node: node.index, mesh, transform: next_level_transform, skin };
            proof {
                own = seq![item@];
            }
            items.push(item);
        }
        let ghost children = node@.children;
        let ghost mut done: Seq<DrawItemView> = Seq::empty();
        let mut i: usize = 0;
        while i < node.children.len()
            invariant
                i <= node.children.len(),
                children == node_views(node.children@),
                children == node@.children,
                views == skeleton_views(skeletons@),
                next_level_transform == matrix_product(*outer_transform, node@.transform),
                skin_pose_of(node@, *outer_transform, views).is_ok(),
                item_views(items@) == item_views(old(items)@) + own + done,
                match draws_of_nodes(children, i as nat, next_level_transform, views, mesh_visible) {
                    Ok(rest) => draws_of_nodes(
                        children,
                        0,
                        next_level_transform,
                        views,
                        mesh_visible,
                    ) == Ok::<Seq<DrawItemView>, SkinError>(done + rest),
                    Err(e) => draws_of_nodes(
                        children,
                        0,
                        next_level_transform,
                        views,
                        mesh_visible,
                    ) == Err::<Seq<DrawItemView>, SkinError>(e),
                },
            decreases node.children.len() - i,
        {
            match Self::render_node(
                &node.children[i],
                &next_level_transform,
                skeletons,
                mesh_visible,
                items,
            ) {
                Ok(_) => {
                    proof {
                        let first = draws_of_node(
                            children[i as int],
                            next_level_transform,
                            views,
                            mesh_visible,
                        )->Ok_0;
                        match draws_of_nodes(
                            children,
                            (i + 1) as nat,
                            next_level_transform,
                            views,
                            mesh_visible,
                        ) {
                            Ok(rest) => {
                                assert((done + first) + rest =~= done + (first + rest));
                            },
                            Err(_) => {},
                        }
                        done = done + first;
                    }
                },
                Err(e) => {
                    return Err(e);
                },
            }
            i += 1;
        }
        proof {
            let below = draws_of_nodes(children, 0, next_level_transform, views, mesh_visible);
        }
        Ok(())
    }
}

/// Writes the pose `pose` into the joints of every skeleton.
pub fn pose_skeletons(skeletons: &mut Vec<Joints>, pose: &Vec<NodeAnimationTransform>)
    ensures
        skeleton_views(final(skeletons)@) == posed_skeletons(skeleton_views(old(skeletons)@), pose@),
{
    let n = skeletons.len();
    let mut i: usize = 0;
    while i < n
        invariant
            i <= n,
            n == skeletons.len(),
            n == old(skeletons).len(),
            forall|k: int|
                0 <= k < i ==> (#[trigger] skeletons@[k])@ == posed_joints(
                    old(skeletons)@[k]@,
                    pose@,
                ),
            forall|k: int| i <= k < n ==> (#[trigger] skeletons@[k]) == old(skeletons)@[k],
        decreases n - i,
    {
        apply_pose(&mut skeletons[i].joints, pose);
        i += 1;
    }
}

impl Renderer {
    /// Prepares a frame of `model` at the clock reading `now`: the animation moves
    /// on, the pose of the clip on display is written into every skeleton, and the
    /// nodes are walked from the root, which hangs on `transform`.
    ///
    /// Returns what is to be drawn, in the order of the walk. Where the clip cannot
    /// be sampled, the skeletons stay as they are.
    pub fn render(&mut self, model: &mut Model, transform: &Mat4, now: i64, gui: &Gui) -> (frame:
        Result<Vec<DrawItem>, FrameError>)
        ensures
            final(model).root == old(model).root,
            final(model).name == old(model).name,
            final(model).animations.animation_control == old(model).animations.animation_control,
            animation_views(final(model).animations.animations@) == old(model).animations.advanced(
                now,
            ),
            final(self).world_transforms == old(self).world_transforms,
            final(self).joint_transforms == old(self).joint_transforms,
            match old(model).animations.frame_pose(now) {
                Err(e) => {
                    &&& frame == Err::<Vec<DrawItem>, FrameError>(FrameError::Animation(e))
                    &&& final(model).skeletons == old(model).skeletons
                    &&& final(self).node_animation_transforms@.len() == 0
                },
                Ok(pose) => {
                    let skeletons = posed_skeletons(skeleton_views(old(model).skeletons@), pose);
                    &&& final(self).node_animation_transforms@ == pose
                    &&& skeleton_views(final(model).skeletons@) == skeletons
                    &&& match frame {
                        Ok(items) => draws_of_node(
                            old(model).root@,
                            *transform,
                            skeletons,
                            gui.mesh_visible,
                        ) == Ok::<Seq<DrawItemView>, SkinError>(item_views(items@)),
                        Err(e) => e matches FrameError::Skin(cause) && draws_of_node(
                            old(model).root@,
                            *transform,
                            skeletons,
                            gui.mesh_visible,
                        ) == Err::<Seq<DrawItemView>, SkinError>(cause),
                    }
                },
            },
    {
        match self.recalculate_animation(&mut model.animations, now) {
            Ok(_) => {},
            Err(e) => {
                return Err(FrameError::Animation(e));
            },
        }
        pose_skeletons(&mut model.skeletons, &self.node_animation_transforms);
        let mut items: Vec<DrawItem> = Vec::new();
        match Self::render_node(
            &model.root,
            transform,
            &model.skeletons,
            gui.mesh_visible,
            &mut items,
        ) {
            Ok(_) => {
                Ok(items)
            },
            Err(e) => Err(FrameError::Skin(e)),
        }
    }
}

} // verus!
