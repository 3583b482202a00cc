//! The joint hierarchy of a skin: a flat array of joints in which every joint
//! names its parent by index.

use glam::Mat4;
use vstd::prelude::*;

use crate::error::JointError;
use crate::label::{joint_label, make_joint_label};
use crate::linalg::mat4_identities;
use crate::scene::{position, SceneNode, Skin};
use crate::transform::Transform;

verus! {

/// One bone of a skeleton.
#[derive(Debug, PartialEq)]
pub struct Joint {
    /// The index of the node that the joint stands for.
    pub node_index: usize,
    /// The index of the parent joint in the joint array; none for a root.
    pub parent: Option<usize>,
    /// The matrix that takes the mesh from its bind pose into the space of the joint.
    pub inverse_bind_matrix: Mat4,
    /// The local transform, which animation overwrites.
    pub transform: Transform,
    /// A name to show.
    pub name: String,
}

/// What a joint holds, with its name as a sequence of characters.
pub struct JointView {
    pub node_index: usize,
    pub parent: Option<usize>,
    pub inverse_bind_matrix: Mat4,
    pub transform: Transform,
    pub name: Seq<char>,
}

impl View for Joint {
    type V = JointView;

    open spec fn view(&self) -> JointView {
        JointView {
            node_index: self.node_index,
            parent: self.parent,
            inverse_bind_matrix: self.inverse_bind_matrix,
            transform: self.transform,
            name: self.name@,
        }
    }
}

impl Joint {
    pub fn new(
        node_index: usize,
        parent: Option<usize>,
        inverse_bind_matrix: Mat4,
        transform: Transform,
        name: String,
    ) -> (joint: Joint)
        ensures
            joint.node_index == node_index,
            joint.parent == parent,
            joint.inverse_bind_matrix == inverse_bind_matrix,
            joint.transform == transform,
            joint.name == name,
    {
        Joint { node_index, parent, inverse_bind_matrix, transform, name }
    }
}

/// The views of a sequence of joints.
pub open spec fn joint_views(joints: Seq<Joint>) -> Seq<JointView> {
    Seq::new(joints.len(), |i: int| joints[i]@)
}

/// The joints of a skin, parents before children.
#[derive(Debug, PartialEq)]
pub struct Joints {
    pub joints: Vec<Joint>,
}

impl View for Joints {
    type V = Seq<JointView>;

    open spec fn view(&self) -> Seq<JointView> {
        joint_views(self.joints@)
    }
}

/// The joint that stands for `node` under the parent joint `parent`.
pub open spec fn joint_of(node: SceneNode, skin: Skin, parent: Option<usize>) -> JointView {
    JointView {
        node_index: node.index,
        parent,
        inverse_bind_matrix: skin.matrices()[skin.position(node.index) as int],
        transform: node.transform.parts(),
        name: match node.name {
            Some(name) => name@,
            None => joint_label(node.index as nat),
        },
    }
}

/// The joints that the subtree of `node` adds to an array that holds `base` joints
/// already, where `parent` is the nearest joint above `node`.
///
/// A node that is a joint comes first and is the parent of what its children add.
/// A node that is no joint hands `parent` on to its children.
pub open spec fn node_joints(node: SceneNode, skin: Skin, parent: Option<usize>, base: nat) -> Seq<
    JointView,
>
    decreases node, 0nat,
{
    if skin.is_joint(node.index) {
        seq![joint_of(node, skin, parent)] + nodes_joints(
            node.children@,
            0,
            skin,
            Some(base as usize),
            base + 1,
        )
    } else {
        nodes_joints(node.children@, 0, skin, parent, base)
    }
}

/// The joints that the subtrees of `nodes[from..]` add, one after the other, to an
/// array that holds `base` joints already.
///
/// Without a parent the walk is over as soon as one subtree has added a joint: a
/// skin has one skeleton, and that subtree held its root.
pub open spec fn nodes_joints(
    nodes: Seq<SceneNode>,
    from: nat,
    skin: Skin,
    parent: Option<usize>,
    base: nat,
) -> Seq<JointView>
    decreases nodes, nodes.len() - from,
{
    if from >= nodes.len() {
        Seq::empty()
    } else {
        let first = node_joints(nodes[from as int], skin, parent, base);
        if parent.is_none() && first.len() > 0 {
            first
        } else {
            first + nodes_joints(nodes, from + 1, skin, parent, base + first.len())
        }
    }
}

/// The joint hierarchy of `skin` in the scene with the roots `roots`: the joints in
/// the order of a depth-first walk that visits a node before its children.
pub open spec fn hierarchy(roots: Seq<SceneNode>, skin: Skin) -> Seq<JointView> {
    nodes_joints(roots, 0, skin, None, 0)
}

/// Whether the skin has an inverse bind matrix for every joint of `joints`.
pub open spec fn covered(joints: Seq<JointView>, skin: Skin) -> bool {
    forall|k: int|
        0 <= k < joints.len() ==> skin.position((#[trigger] joints[k]).node_index)
            < skin.matrices().len()
}

/// Whether every joint of `joints` that has a parent comes after it in the array.
pub open spec fn parents_first(joints: Seq<JointView>) -> bool {
    forall|k: int|
        0 <= k < joints.len() ==> match (#[trigger] joints[k]).parent {
            Some(p) => p < k,
            None => true,
        }
}

/// Whether no joint of `joints` but the first is a root.
pub open spec fn single_root(joints: Seq<JointView>) -> bool {
    forall|k: int| 0 < k < joints.len() ==> (#[trigger] joints[k]).parent.is_some()
}

/// How the parent `found` of the `k`-th joint of a walk relates to the parent
/// `carried` into the walk and to the size `base` of the array before it: the joint
/// hangs on `carried`, or on a joint that the walk added before it. Without a
/// carried parent only the first joint of the walk is a root.
pub open spec fn linked(found: Option<usize>, carried: Option<usize>, base: nat, k: int) -> bool {
    match found {
        Some(p) => found == carried || base <= p < base + k,
        None => carried.is_none() && k == 0,
    }
}

/// Every joint that the subtree of a node adds is linked to the parent carried into
/// the subtree.
pub proof fn lemma_node_joints_linked(
    node: SceneNode,
    skin: Skin,
    parent: Option<usize>,
    base: nat,
)
    requires
        base + node_joints(node, skin, parent, base).len() <= usize::MAX,
    ensures
        forall|k: int|
            0 <= k < node_joints(node, skin, parent, base).len() ==> linked(
                (#[trigger] node_joints(node, skin, parent, base)[k]).parent,
                parent,
                base,
                k,
            ),
    decreases node, 0nat,
{
    let walk = node_joints(node, skin, parent, base);
    if skin.is_joint(node.index) {
        let below = nodes_joints(node.children@, 0, skin, Some(base as usize), base + 1);
        lemma_nodes_joints_linked(node.children@, 0, skin, Some(base as usize), base + 1);
        assert forall|k: int| 0 <= k < walk.len() implies linked(
            (#[trigger] walk[k]).parent,
            parent,
            base,
            k,
        ) by {
            if k > 0 {
                assert(walk[k] == below[k - 1]);
            }
        }
    } else {
        lemma_nodes_joints_linked(node.children@, 0, skin, parent, base);
    }
}

/// Every joint that the subtrees of `nodes[from..]` add is linked to the parent
/// carried into them.
pub proof fn lemma_nodes_joints_linked(
    nodes: Seq<SceneNode>,
    from: nat,
    skin: Skin,
    parent: Option<usize>,
    base: nat,
)
    requires
        base + nodes_joints(nodes, from, skin, parent, base).len() <= usize::MAX,
    ensures
        forall|k: int|
            0 <= k < nodes_joints(nodes, from, skin, parent, base).len() ==> linked(
                (#[trigger] nodes_joints(nodes, from, skin, parent, base)[k]).parent,
                parent,
                base,
                k,
            ),
    decreases nodes, nodes.len() - from,
{
    if from < nodes.len() {
        let walk = nodes_joints(nodes, from, skin, parent, base);
        let first = node_joints(nodes[from as int], skin, parent, base);
        lemma_node_joints_linked(nodes[from as int], skin, parent, base);
        if !(parent.is_none() && first.len() > 0) {
            let rest = nodes_joints(nodes, from + 1, skin, parent, base + first.len());
            lemma_nodes_joints_linked(nodes, from + 1, skin, parent, base + first.len());
            assert forall|k: int| 0 <= k < walk.len() implies linked(
                (#[trigger] walk[k]).parent,
                parent,
                base,
                k,
            ) by {
                if k < first.len() {
                    assert(walk[k] == first[k]);
                }
            }
        }
    }
}

/// In the hierarchy of a skin every parent stands before its children, and only the
/// first joint is a root.
pub proof fn lemma_hierarchy_order(roots: Seq<SceneNode>, skin: Skin)
    requires
        hierarchy(roots, skin).len() <= usize::MAX,
    ensures
        parents_first(hierarchy(roots, skin)),
        single_root(hierarchy(roots, skin)),
{
    lemma_nodes_joints_linked(roots, 0, skin, None, 0);
}

/// A hierarchy is covered exactly when its two parts are.
pub proof fn lemma_covered_concat(a: Seq<JointView>, b: Seq<JointView>, skin: Skin)
    ensures
        covered(a + b, skin) <==> covered(a, skin) && covered(b, skin),
{
    if covered(a + b, skin) {
        assert forall|k: int| 0 <= k < a.len() implies skin.position(
            (#[trigger] a[k]).node_index,
        ) < skin.matrices().len() by {
            assert((a + b)[k] == a[k]);
        }
        assert forall|k: int| 0 <= k < b.len() implies skin.position(
            (#[trigger] b[k]).node_index,
        ) < skin.matrices().len() by {
            assert((a + b)[k + a.len()] == b[k]);
        }
    }
    if covered(a, skin) && covered(b, skin) {
        assert forall|k: int| 0 <= k < (a + b).len() implies skin.position(
            (#[trigger] (a + b)[k]).node_index,
        ) < skin.matrices().len() by {
            if k >= a.len() {
                assert((a + b)[k] == b[k - a.len()]);
            }
        }
    }
}

/// The views of a joint array that has grown by one joint.
proof fn lemma_views_push(joints: Seq<Joint>, joint: Joint)
    ensures
        joint_views(joints.push(joint)) == joint_views(joints) + seq![joint@],
{
}

impl Joints {
    /// Builds the joint hierarchy of `skin` from the roots of the scene.
    ///
    /// The walk fails when it meets a joint for which the skin has no inverse bind
    /// matrix.
    pub fn from_gltf(skin: &Skin, scene: &Vec<SceneNode>) -> (built: Result<Joints, JointError>)
        ensures
            match built {
                Ok(joints) => covered(hierarchy(scene@, *skin), *skin) && joints@ == hierarchy(
                    scene@,
                    *skin,
                ) && parents_first(joints@) && single_root(joints@),
                Err(e) => !covered(hierarchy(scene@, *skin), *skin)
                    && e == JointError::MissingInverseBindMatrix,
            },
    {
        let mut joints: Vec<Joint> = Vec::new();
        let complete = match &skin.inverse_bind_matrices {
            Some(matrices) => Self::build_hierarchy(scene, skin, matrices, None, &mut joints),
            None => {
                let matrices = mat4_identities(skin.joints.len());
                assert(matrices@ =~= skin.matrices());
                Self::build_hierarchy(scene, skin, &matrices, None, &mut joints)
            },
        };
        if complete {
            proof {
                assert(joint_views(joints@).len() == joints.len());
                lemma_hierarchy_order(scene@, *skin);
            }
            Ok(Joints { joints })
        } else {
            Err(JointError::MissingInverseBindMatrix)
        }
    }

    /// Walks `nodes` and their subtrees and appends the joints among them to
    /// `joints`, each with `parent`, or with the nearest joint above it, as its
    /// parent. Returns whether every joint met had an inverse bind matrix; if one
    /// had none, the walk ends there.
    fn build_hierarchy(
        nodes: &Vec<SceneNode>,
        skin: &Skin,
        matrices: &Vec<Mat4>,
        parent: Option<usize>,
        joints: &mut Vec<Joint>,
    ) -> (complete: bool)
        requires
            matrices@ == skin.matrices(),
        ensures
            complete == covered(
                nodes_joints(nodes@, 0, *skin, parent, old(joints)@.len()),
                *skin,
            ),
            complete ==> joint_views(final(joints)@) == joint_views(old(joints)@) + nodes_joints(
                nodes@,
                0,
                *skin,
                parent,
                old(joints)@.len(),
            ),
        decreases nodes,
    {
        let ghost base = joints@.len();
        let ghost total = nodes_joints(nodes@, 0, *skin, parent, base);
        let ghost mut done: Seq<JointView> = Seq::empty();
        let mut i: usize = 0;
        while i < nodes.len()
            invariant
                i <= nodes.len(),
                matrices@ == skin.matrices(),
                base == old(joints)@.len(),
                total == nodes_joints(nodes@, 0, *skin, parent, base),
                joint_views(joints@) == joint_views(old(joints)@) + done,
                total == done + nodes_joints(
                    nodes@,
                    i as nat,
                    *skin,
                    parent,
                    (base + done.len()) as nat,
                ),
                covered(done, *skin),
                parent.is_none() ==> done.len() == 0,
            decreases nodes.len() - i,
        {
            let node = &nodes[i];
            let before = joints.len();
            let ghost first = node_joints(*node, *skin, parent, before as nat);
            let ghost rest = nodes_joints(nodes@, i as nat, *skin, parent, before as nat);
            assert(joint_views(joints@).len() == joints@.len());
            proof {
                lemma_covered_concat(done, rest, *skin);
                if !(parent.is_none() && first.len() > 0) {
                    lemma_covered_concat(
                        first,
                        nodes_joints(
                            nodes@,
                            (i + 1) as nat,
                            *skin,
                            parent,
                            (before + first.len()) as nat,
                        ),
                        *skin,
                    );
                }
            }
            match position(&skin.joints, node.index) {
                Some(place) => {
                    let ghost below = nodes_joints(
                        node.children@,
                        0,
                        *skin,
                        Some(before),
                        (before + 1) as nat,
                    );
                    let ghost head = joint_of(*node, *skin, parent);
                    proof {
                        lemma_covered_concat(seq![head], below, *skin);
                    }
                    if place >= matrices.len() {
                        assert(seq![head][0] == head);
                        return false;
                    }
                    let name = match &node.name {
                        Some(name) => name.clone(),
                        None => make_joint_label(node.index),
                    };
                    let transform = Transform::from_gltf(&node.transform);
                    let joint = Joint::new(node.index, parent, matrices[place], transform, name);
                    proof {
                        lemma_views_push(joints@, joint);
                    }
                    joints.push(joint);
                    if !Self::build_hierarchy(&node.children, skin, matrices, Some(before), joints) {
                        return false;
                    }
                    assert(joint_views(joints@) =~= joint_views(old(joints)@) + (done + first));
                },
                None => {
                    if !Self::build_hierarchy(&node.children, skin, matrices, parent, joints) {
                        return false;
                    }
                },
            }
            if parent.is_none() && joints.len() > before {
                return true;
            }
            proof {
                lemma_covered_concat(done, first, *skin);
                done = done + first;
            }
            i += 1;
        }
        true
    }
}

/// The bones among the first `n` joints: for every joint that has a parent, in the
/// order of the joints, the pair of its index and the index of its parent.
pub open spec fn bones_of(joints: Seq<JointView>, n: nat) -> Seq<(usize, usize)>
    decreases n,
{
    if n == 0 {
        Seq::empty()
    } else {
        let before = bones_of(joints, (n - 1) as nat);
        match joints[n - 1].parent {
            Some(parent) => before.push(((n - 1) as usize, parent)),
            None => before,
        }
    }
}

impl Joints {
    /// The bones of the skeleton, each as the indices of a joint and of its parent.
    pub fn bones(&self) -> (bones: Vec<(usize, usize)>)
        ensures
            bones@ == bones_of(self@, self@.len()),
    {
        let mut bones: Vec<(usize, usize)> = Vec::new();
        let mut i: usize = 0;
        while i < self.joints.len()
            invariant
                i <= self.joints.len(),
                bones@ == bones_of(self@, i as nat),
            decreases self.joints.len() - i,
        {
            match self.joints[i].parent {
                Some(parent) => {
                    bones.push((i, parent));
                },
                None => {},
            }
            i += 1;
        }
        bones
    }
}

} // verus!
