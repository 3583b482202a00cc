//! The scene of an asset as plain data: nodes with their children, and the skins
//! that nodes refer to.

use glam::Mat4;
use vstd::prelude::*;

use crate::decode::AnimationSource;
use crate::linalg::identity_matrix;
use crate::transform::NodeTransform;

verus! {

/// A skin definition: the nodes that act as joints, and their inverse bind
/// matrices.
#[derive(Debug, PartialEq)]
pub struct Skin {
    /// Node indices of the joints, in the order in which the skin declares them.
    pub joints: Vec<usize>,
    /// One matrix per joint, in the same order, where the skin supplies them.
    pub inverse_bind_matrices: Option<Vec<Mat4>>,
}

/// A node of the scene tree, as the asset declares it.
#[derive(Debug, PartialEq)]
pub struct SceneNode {
    /// The index of the node in the asset.
    pub index: usize,
    pub name: Option<String>,
    pub transform: NodeTransform,
    /// Handle of the mesh that the node shows.
    pub mesh: Option<usize>,
    /// The skin that deforms the mesh of the node.
    pub skin: Option<Skin>,
    pub children: Vec<SceneNode>,
}

/// A scene: the roots of a tree of nodes.
#[derive(Debug, PartialEq)]
pub struct Scene {
    pub nodes: Vec<SceneNode>,
}

/// An asset as plain data.
#[derive(Debug, PartialEq)]
pub struct Document {
    pub scenes: Vec<Scene>,
    pub animations: Vec<AnimationSource>,
}

/// The index of the first element of `list` at or after `from` that equals `x`;
/// the length of `list` if there is none.
pub open spec fn first_position_from(list: Seq<usize>, x: usize, from: nat) -> nat
    decreases list.len() - from,
{
    if from >= list.len() || list[from as int] == x {
        from
    } else {
        first_position_from(list, x, from + 1)
    }
}

/// The index of the first element of `list` that equals `x`; the length of `list`
/// if there is none.
pub open spec fn first_position(list: Seq<usize>, x: usize) -> nat {
    first_position_from(list, x, 0)
}

/// `first_position_from` finds the first occurrence, and stops at the length of the
/// list exactly when there is none.
pub proof fn lemma_first_position_from(list: Seq<usize>, x: usize, from: nat)
    requires
        from <= list.len(),
    ensures
        from <= first_position_from(list, x, from) <= list.len(),
        first_position_from(list, x, from) < list.len() ==> list[first_position_from(
            list,
            x,
            from,
        ) as int] == x,
        forall|j: int| from <= j < first_position_from(list, x, from) ==> list[j] != x,
    decreases list.len() - from,
{
    if from < list.len() && list[from as int] != x {
        lemma_first_position_from(list, x, from + 1);
    }
}

/// Finds the first occurrence of `x` in `list`.
pub fn position(list: &Vec<usize>, x: usize) -> (found: Option<usize>)
    ensures
        match found {
            Some(i) => i < list.len() && list[i as int] == x && i == first_position(list@, x),
            None => !list@.contains(x) && first_position(list@, x) == list.len(),
        },
{
    let mut i: usize = 0;
    while i < list.len()
        invariant
            i <= list.len(),
            first_position(list@, x) == first_position_from(list@, x, i as nat),
            forall|j: int| 0 <= j < i ==> list[j] != x,
        decreases list.len() - i,
    {
        if list[i] == x {
            return Some(i);
        }
        i += 1;
    }
    None
}

/// The indices of the nodes in the subtree of `node`, the node before its children.
pub open spec fn node_indices(node: SceneNode) -> Seq<usize>
    decreases node, 0nat,
{
    seq![node.index] + nodes_indices(node.children@, 0)
}

/// The indices of the nodes in the subtrees of `nodes[from..]`, one subtree after
/// the other.
pub open spec fn nodes_indices(nodes: Seq<SceneNode>, from: nat) -> Seq<usize>
    decreases nodes, nodes.len() - from,
{
    if from >= nodes.len() {
        Seq::empty()
    } else {
        node_indices(nodes[from as int]) + nodes_indices(nodes, from + 1)
    }
}

/// Appends to `indices` the indices of the nodes in the subtrees of `nodes`.
pub fn collect_indices(nodes: &Vec<SceneNode>, indices: &mut Vec<usize>)
    ensures
        final(indices)@ == old(indices)@ + nodes_indices(nodes@, 0),
    decreases nodes,
{
    let ghost mut done: Seq<usize> = Seq::empty();
    let mut i: usize = 0;
    while i < nodes.len()
        invariant
            i <= nodes.len(),
            indices@ == old(indices)@ + done,
            nodes_indices(nodes@, 0) == done + nodes_indices(nodes@, i as nat),
        decreases nodes.len() - i,
    {
        indices.push(nodes[i].index);
        collect_indices(&nodes[i].children, indices);
        proof {
            done = done + node_indices(nodes@[i as int]);
        }
        i += 1;
    }
}

/// Whether every channel of `animations` animates a node whose index is among
/// `indices`.
pub open spec fn targets_known(animations: Seq<AnimationSource>, indices: Seq<usize>) -> bool {
    forall|a: int, c: int|
        0 <= a < animations.len() && 0 <= c < animations[a].channels@.len() ==> indices.contains(
            (#[trigger] animations[a].channels@[c]).node,
        )
}

/// Tells whether every channel of `animations` animates a node whose index is
/// among `indices`.
pub fn check_targets(animations: &Vec<AnimationSource>, indices: &Vec<usize>) -> (known: bool)
    ensures
        known == targets_known(animations@, indices@),
{
    let mut a: usize = 0;
    while a < animations.len()
        invariant
            a <= animations.len(),
            forall|i: int, c: int|
                0 <= i < a && 0 <= c < animations@[i].channels@.len() ==> indices@.contains(
                    (#[trigger] animations@[i].channels@[c]).node,
                ),
        decreases animations.len() - a,
    {
        let channels = &animations[a].channels;
        let mut c: usize = 0;
        while c < channels.len()
            invariant
                c <= channels.len(),
                a < animations.len(),
                *channels == animations@[a as int].channels,
                forall|k: int| 0 <= k < c ==> indices@.contains((#[trigger] channels@[k]).node),
            decreases channels.len() - c,
        {
            match position(indices, channels[c].node) {
                Some(_) => {},
                None => {
                    return false;
                },
            }
            c += 1;
        }
        a += 1;
    }
    true
}

impl Skin {
    /// Whether the node `node` is a joint of this skin.
    pub open spec fn is_joint(self, node: usize) -> bool {
        self.joints@.contains(node)
    }

    /// The place of the node `node` in the declared order of the joints.
    pub open spec fn position(self, node: usize) -> nat {
        first_position(self.joints@, node)
    }

    /// The inverse bind matrices in the declared order of the joints. A skin that
    /// supplies none has the identity matrix for every joint.
    pub open spec fn matrices(self) -> Seq<Mat4> {
        match self.inverse_bind_matrices {
            Some(matrices) => matrices@,
            None => Seq::new(self.joints@.len(), |i: int| identity_matrix()),
        }
    }
}

} // verus!
