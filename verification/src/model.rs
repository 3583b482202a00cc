//! A model: the tree of its nodes, its skeletons and its clips.

use glam::Mat4;
use vstd::prelude::*;
use vstd::string::StringExecFns;

use crate::clip::{Animation, AnimationView};
use crate::decode::{animations_of, first_animation_fault};
use crate::error::{JointError, ModelError};
use crate::joints::{covered, hierarchy, JointView, Joints};
use crate::label::{make_node_label, node_label};
use crate::linalg::{identity_matrix, mat4_identity};
use crate::playback::{animation_views, AnimationControl, Animations};
use crate::scene::{
    check_targets, collect_indices, nodes_indices, targets_known, Document, SceneNode,
};

verus! {

/// A node of a model. Nodes form a tree.
#[derive(Debug, PartialEq)]
pub struct Node {
    /// The index of the node in the asset.
    pub index: usize,
    pub name: String,
    pub children: Vec<Node>,
    /// Handle of the mesh that the node shows.
    pub mesh: Option<usize>,
    /// The transform of the node relative to its parent.
    pub transform: Mat4,
    /// Index of the skeleton of the node among the skeletons of the model.
    pub joints: Option<usize>,
}

/// What a node holds, with its name and its children as sequences.
pub struct NodeView {
    pub index: usize,
    pub name: Seq<char>,
    pub children: Seq<NodeView>,
    pub mesh: Option<usize>,
    pub transform: Mat4,
    pub joints: Option<usize>,
}

/// The view of a node: what it holds, and the views of its children.
pub open spec fn node_view(node: Node) -> NodeView
    decreases node,
{
    NodeView {
        index: node.index,
        name: node.name@,
        children: Seq::new(
            node.children@.len(),
            |i: int|
                if 0 <= i < node.children@.len() {
                    node_view(node.children@[i])
                } else {
                    arbitrary()
                },
        ),
        mesh: node.mesh,
        transform: node.transform,
        joints: node.joints,
    }
}

impl View for Node {
    type V = NodeView;

    open spec fn view(&self) -> NodeView {
        node_view(*self)
    }
}

/// The views of a sequence of nodes.
pub open spec fn node_views(nodes: Seq<Node>) -> Seq<NodeView> {
    Seq::new(nodes.len(), |i: int| nodes[i]@)
}

/// The children of the view of a node are the views of its children.
pub proof fn lemma_node_view(node: Node)
    ensures
        node@.children == node_views(node.children@),
{
}

/// The views of a sequence of skeletons.
pub open spec fn skeleton_views(skeletons: Seq<Joints>) -> Seq<Seq<JointView>> {
    Seq::new(skeletons.len(), |i: int| skeletons[i]@)
}

/// This represents a model and holds what is needed to animate it.
#[derive(Debug, PartialEq)]
pub struct Model {
    /// An artificial root node above the roots of the scene.
    pub root: Node,
    pub name: String,
    pub animations: Animations,
    /// The skeletons of the skinned nodes.
    pub skeletons: Vec<Joints>,
}

/// The number that follows `id`. Numbers stop at the greatest.
pub open spec fn next_id(id: usize) -> usize {
    if id < usize::MAX {
        (id + 1) as usize
    } else {
        id
    }
}

/// What the subtree of a scene node becomes.
pub struct Built {
    /// The node of the model.
    pub node: NodeView,
    /// The number that was given out last.
    pub last_id: usize,
    /// The skeletons of the skinned nodes of the subtree, children before parents.
    pub skeletons: Seq<Seq<JointView>>,
}

/// What the subtrees of a list of scene nodes become.
pub struct BuiltList {
    pub nodes: Seq<NodeView>,
    pub last_id: usize,
    pub skeletons: Seq<Seq<JointView>>,
}

/// The node of the model that the scene node `node` becomes, if it is the `id`-th
/// node and the model holds `base` skeletons already.
///
/// A node without a name is called after its number. The children are numbered on
/// from `id`. The skeleton of a skinned node comes after those of its subtree.
pub open spec fn built_node(node: SceneNode, id: usize, base: nat, scene: Seq<SceneNode>) -> Built
    decreases node, 0nat,
{
    let below = built_nodes(node.children@, 0, id, base, scene);
    Built {
        node: NodeView {
            index: node.index,
            name: match node.name {
                Some(name) => name@,
                None => node_label(id as nat),
            },
            children: below.nodes,
            mesh: node.mesh,
            transform: node.transform.matrix_spec(),
            joints: match node.skin {
                Some(_) => Some((base + below.skeletons.len()) as usize),
                None => None,
            },
        },
        last_id: below.last_id,
        skeletons: match node.skin {
            Some(skin) => below.skeletons.push(hierarchy(scene, skin)),
            None => below.skeletons,
        },
    }
}

/// The nodes of the model that the scene nodes `nodes[from..]` become, if `id` is
/// the number that was given out last and the model holds `base` skeletons already.
pub open spec fn built_nodes(
    nodes: Seq<SceneNode>,
    from: nat,
    id: usize,
    base: nat,
    scene: Seq<SceneNode>,
) -> BuiltList
    decreases nodes, nodes.len() - from,
{
    if from >= nodes.len() {
        BuiltList { nodes: Seq::empty(), last_id: id, skeletons: Seq::empty() }
    } else {
        let first = built_node(nodes[from as int], next_id(id), base, scene);
        let rest = built_nodes(
            nodes,
            from + 1,
            first.last_id,
            base + first.skeletons.len(),
            scene,
        );
        BuiltList {
            nodes: seq![first.node] + rest.nodes,
            last_id: rest.last_id,
            skeletons: first.skeletons + rest.skeletons,
        }
    }
}

/// Whether every skin in the subtree of `node` has an inverse bind matrix for each
/// of its joints in the scene.
pub open spec fn skins_covered(node: SceneNode, scene: Seq<SceneNode>) -> bool
    decreases node, 0nat,
{
    all_skins_covered(node.children@, 0, scene) && match node.skin {
        Some(skin) => covered(hierarchy(scene, skin), skin),
        None => true,
    }
}

/// Whether every skin in the subtrees of `nodes[from..]` is covered.
pub open spec fn all_skins_covered(nodes: Seq<SceneNode>, from: nat, scene: Seq<SceneNode>) -> bool
    decreases nodes, nodes.len() - from,
{
    from >= nodes.len() || (skins_covered(nodes[from as int], scene) && all_skins_covered(
        nodes,
        from + 1,
        scene,
    ))
}

/// A skin that is not covered among `nodes[from..]` is not covered among
/// `nodes[before..]` for any `before <= from`.
pub proof fn lemma_uncovered_stays(
    nodes: Seq<SceneNode>,
    before: nat,
    from: nat,
    scene: Seq<SceneNode>,
)
    requires
        before <= from,
        !all_skins_covered(nodes, from, scene),
    ensures
        !all_skins_covered(nodes, before, scene),
    decreases from - before,
{
    if before < from {
        lemma_uncovered_stays(nodes, before + 1, from, scene);
    }
}

/// What keeps an asset from becoming a model, if anything. The number of scenes is
/// looked at first, then the skins, then the animations, and last the nodes that
/// the channels animate.
pub open spec fn model_fault(document: Document) -> Option<ModelError> {
    if document.scenes@.len() != 1 {
        Some(ModelError::NotOneScene)
    } else if !all_skins_covered(document.scenes@[0].nodes@, 0, document.scenes@[0].nodes@) {
        Some(ModelError::Skin(JointError::MissingInverseBindMatrix))
    } else {
        match first_animation_fault(document.animations@, document.animations@.len()) {
            Some(error) => Some(ModelError::Animation(error)),
            None => if targets_known(
                document.animations@,
                nodes_indices(document.scenes@[0].nodes@, 0),
            ) {
                None
            } else {
                Some(ModelError::UnknownChannelTarget)
            },
        }
    }
}

/// What a model holds, as sequences.
pub struct ModelView {
    pub root: NodeView,
    pub name: Seq<char>,
    pub animations: Seq<AnimationView>,
    pub animation_control: AnimationControl,
    pub skeletons: Seq<Seq<JointView>>,
}

impl View for Model {
    type V = ModelView;

    open spec fn view(&self) -> ModelView {
        ModelView {
            root: self.root@,
            name: self.name@,
            animations: animation_views(self.animations.animations@),
            animation_control: self.animations.animation_control,
            skeletons: skeleton_views(self.skeletons@),
        }
    }
}

/// The model that an asset with one scene gives under the name `name`: the roots of
/// the scene hang on an artificial root, nodes are numbered from 1, and nothing
/// plays.
pub open spec fn model_of(name: Seq<char>, document: Document) -> ModelView {
    let roots = document.scenes@[0].nodes@;
    let built = built_nodes(roots, 0, 0, 0, roots);
    ModelView {
        root: NodeView {
            index: usize::MAX,
            name: seq!['R', 'o', 'o', 't'],
            children: built.nodes,
            mesh: None,
            transform: identity_matrix(),
            joints: None,
        },
        name,
        animations: animations_of(document.animations@),
        animation_control: AnimationControl::Static,
        skeletons: built.skeletons,
    }
}

impl Node {
    /// Makes the node of a model from the scene node `node`, and appends the
    /// skeletons of its subtree to `skeletons`. `id` is the number of the node; it
    /// comes back as the number that was given out last.
    pub fn from_gltf(
        node: &SceneNode,
        id: &mut usize,
        scene: &Vec<SceneNode>,
        skeletons: &mut Vec<Joints>,
    ) -> (made: Result<Node, JointError>)
        ensures
            match made {
                Ok(made) => {
                    let built = built_node(*node, *old(id), old(skeletons)@.len(), scene@);
                    &&& skins_covered(*node, scene@)
                    &&& made@ == built.node
                    &&& *final(id) == built.last_id
                    &&& skeleton_views(final(skeletons)@) == skeleton_views(old(skeletons)@)
                        + built.skeletons
                },
                Err(e) => !skins_covered(*node, scene@) && e == JointError::MissingInverseBindMatrix,
            },
        decreases node,
    {
        let ghost own_id = *id;
        let ghost base = skeletons@.len();
        let ghost all = built_nodes(node.children@, 0, own_id, base, scene@);
        let name = match &node.name {
            Some(name) => name.clone(),
            None => make_node_label(*id),
        };
        let mut children: Vec<Node> = Vec::new();
        let ghost mut done: Seq<Seq<JointView>> = Seq::empty();
        let mut i: usize = 0;
        while i < node.children.len()
            invariant
                i <= node.children.len(),
                base == old(skeletons)@.len(),
                all == built_nodes(node.children@, 0, own_id, base, scene@),
                all_skins_covered(node.children@, 0, scene@) == all_skins_covered(
                    node.children@,
                    i as nat,
                    scene@,
                ),
                skeleton_views(skeletons@) == skeleton_views(old(skeletons)@) + done,
                ({
                    let rest = built_nodes(
                        node.children@,
                        i as nat,
                        *id,
                        (base + done.len()) as nat,
                        scene@,
                    );
                    &&& all.nodes == node_views(children@) + rest.nodes
                    &&& all.last_id == rest.last_id
                    &&& all.skeletons == done + rest.skeletons
                }),
            decreases node.children.len() - i,
        {
            let ghost first = built_node(
                node.children@[i as int],
                next_id(*id),
                (base + done.len()) as nat,
                scene@,
            );
            if *id < usize::MAX {
                *id = *id + 1;
            }
            match Node::from_gltf(&node.children[i], id, scene, skeletons) {
                Ok(child) => {
                    children.push(child);
                    proof {
                        done = done + first.skeletons;
                    }
                },
                Err(e) => {
                    proof {
                        lemma_uncovered_stays(node.children@, 0, i as nat, scene@);
                    }
                    return Err(e);
                },
            }
            i += 1;
        }
        let transform = node.transform.matrix();
        let joints = match &node.skin {
            Some(skin) => {
                match Joints::from_gltf(skin, scene) {
                    Ok(built) => {
                        let handle = skeletons.len();
                        let ghost grown = skeletons@.push(built);
                        assert(skeleton_views(grown) =~= skeleton_views(skeletons@).push(built@));
                        skeletons.push(built);
                        Some(handle)
                    },
                    Err(e) => {
                        return Err(e);
                    },
                }
            },
            None => None,
        };
        let made = Node {
            index: node.index,
            name,
            children,
            mesh: node.mesh,
            transform,
            joints,
        };
        proof {
            lemma_node_view(made);
        }
        Ok(made)
    }
}

/// The skeletons that show in the subtree of `node`: that of `node` if it has one,
/// else those that show in the subtrees of its children. What lies below a skinned
/// node does not show.
pub open spec fn shown_skeletons(node: NodeView) -> Seq<usize>
    decreases node, 0nat,
{
    match node.joints {
        Some(skeleton) => seq![skeleton],
        None => shown_skeletons_of(node.children, 0),
    }
}

/// The skeletons that show in the subtrees of `nodes[from..]`, one after the other.
pub open spec fn shown_skeletons_of(nodes: Seq<NodeView>, from: nat) -> Seq<usize>
    decreases nodes, nodes.len() - from,
{
    if from >= nodes.len() {
        Seq::empty()
    } else {
        shown_skeletons(nodes[from as int]) + shown_skeletons_of(nodes, from + 1)
    }
}

impl Node {
    /// Appends to `skeletons` the skeletons that show in the subtree of this node.
    pub fn skeletons(&self, skeletons: &mut Vec<usize>)
        ensures
            final(skeletons)@ == old(skeletons)@ + shown_skeletons(self@),
        decreases self,
    {
        proof {
            lemma_node_view(*self);
        }
        match self.joints {
            Some(skeleton) => {
                skeletons.push(skeleton);
            },
            None => {
                let ghost children = self@.children;
                let ghost mut done: Seq<usize> = Seq::empty();
                let mut i: usize = 0;
                while i < self.children.len()
                    invariant
                        i <= self.children.len(),
                        children == node_views(self.children@),
                        skeletons@ == old(skeletons)@ + done,
                        shown_skeletons_of(children, 0) == done + shown_skeletons_of(
                            children,
                            i as nat,
                        ),
                    decreases self.children.len() - i,
                {
                    let ghost first = shown_skeletons(children[i as int]);
                    self.children[i].skeletons(skeletons);
                    proof {
                        done = done + first;
                    }
                    i += 1;
                }
            },
        }
    }
}

impl Model {
    /// Makes a model from an asset. The asset must hold exactly one scene.
    pub fn from_gltf(name: String, document: &Document) -> (made: Result<Model, ModelError>)
        ensures
            match made {
                Ok(model) => model_fault(*document).is_none() && model@ == model_of(
                    name@,
                    *document,
                ),
                Err(e) => model_fault(*document) == Some(e),
            },
    {
        if document.scenes.len() != 1 {
            return Err(ModelError::NotOneScene);
        }
        let scene = &document.scenes[0].nodes;
        let ghost all = built_nodes(scene@, 0, 0, 0, scene@);
        let mut skeletons: Vec<Joints> = Vec::new();
        let mut nodes: Vec<Node> = Vec::new();
        let mut id: usize = 0;
        let mut i: usize = 0;
        while i < scene.len()
            invariant
                i <= scene.len(),
                document.scenes@.len() == 1,
                *scene == document.scenes@[0].nodes,
                all == built_nodes(scene@, 0, 0, 0, scene@),
                all_skins_covered(scene@, 0, scene@) == all_skins_covered(scene@, i as nat, scene@),
                ({
                    let rest = built_nodes(scene@, i as nat, id, skeletons@.len(), scene@);
                    &&& all.nodes == node_views(nodes@) + rest.nodes
                    &&& all.skeletons == skeleton_views(skeletons@) + rest.skeletons
                }),
            decreases scene.len() - i,
        {
            if id < usize::MAX {
                id = id + 1;
            }
            match Node::from_gltf(&scene[i], &mut id, scene, &mut skeletons) {
                Ok(node) => {
                    nodes.push(node);
                    proof {
                        assert(skeleton_views(skeletons@).len() == skeletons@.len());
                    }
                },
                Err(e) => {
                    proof {
                        lemma_uncovered_stays(scene@, 0, i as nat, scene@);
                    }
                    return Err(ModelError::Skin(e));
                },
            }
            i += 1;
        }
        let animations = match Animation::from_gltf(&document.animations) {
            Ok(animations) => animations,
            Err(e) => {
                return Err(ModelError::Animation(e));
            },
        };
        let mut indices: Vec<usize> = Vec::new();
        collect_indices(scene, &mut indices);
        if !check_targets(&document.animations, &indices) {
            return Err(ModelError::UnknownChannelTarget);
        }
        proof {
            reveal_strlit("Root");
        }
        let root_name = String::from_str("Root");
        assert(root_name@ =~= seq!['R', 'o', 'o', 't']);
        let root = Node {
            index: usize::MAX,
            name: root_name,
            children: nodes,
            mesh: None,
            transform: mat4_identity(),
            joints: None,
        };
        proof {
            lemma_node_view(root);
        }
        Ok(Model { root, name, animations, skeletons })
    }
}

} // verus!
