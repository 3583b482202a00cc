use glam::{Mat4, Quat, Vec3};
use skeletal::error::JointError;
use skeletal::joints::Joints;
use skeletal::scene::{position, SceneNode, Skin};
use skeletal::transform::{NodeTransform, Transform};

fn node(index: usize, name: Option<&str>, children: Vec<SceneNode>) -> SceneNode {
    SceneNode {
        index,
        name: name.map(|n| n.to_string()),
        transform: NodeTransform::Decomposed {
            translation: Vec3::new(index as f32, 0.0, 0.0),
            rotation: Quat::IDENTITY,
            scale: Vec3::ONE,
        },
        mesh: None,
        skin: None,
        children,
    }
}

fn scale_matrix(s: f32) -> Mat4 {
    Mat4::from_scale(Vec3::splat(s))
}

#[test]
fn hierarchy_is_a_preorder_walk_of_the_joints() {
    // 0 (no joint)
    //   1 (joint)
    //     2 (no joint)
    //       3 (joint)
    //     4 (joint)
    //       5 (joint)
    let scene = vec![node(
        0,
        None,
        vec![node(
            1,
            Some("hip"),
            vec![
                node(2, None, vec![node(3, None, vec![])]),
                node(4, Some("spine"), vec![node(5, None, vec![])]),
            ],
        )],
    )];
    let skin = Skin {
        joints: vec![5, 4, 3, 1],
        inverse_bind_matrices: Some(vec![
            scale_matrix(5.0),
            scale_matrix(4.0),
            scale_matrix(3.0),
            scale_matrix(1.0),
        ]),
    };
    let joints = Joints::from_gltf(&skin, &scene).unwrap().joints;
    let nodes: Vec<usize> = joints.iter().map(|j| j.node_index).collect();
    assert_eq!(nodes, vec![1, 3, 4, 5]);
    let parents: Vec<Option<usize>> = joints.iter().map(|j| j.parent).collect();
    assert_eq!(parents, vec![None, Some(0), Some(0), Some(2)]);
    let names: Vec<&str> = joints.iter().map(|j| j.name.as_str()).collect();
    assert_eq!(names, vec!["hip", "Joint-3", "spine", "Joint-5"]);
    assert_eq!(joints[0].inverse_bind_matrix, scale_matrix(1.0));
    assert_eq!(joints[1].inverse_bind_matrix, scale_matrix(3.0));
    assert_eq!(joints[2].inverse_bind_matrix, scale_matrix(4.0));
    assert_eq!(joints[3].inverse_bind_matrix, scale_matrix(5.0));
    assert_eq!(joints[1].transform.translation, Vec3::new(3.0, 0.0, 0.0));
}

#[test]
fn parents_stand_before_their_children() {
    let scene = vec![
        node(9, None, vec![]),
        node(
            0,
            None,
            vec![
                node(1, None, vec![node(2, None, vec![]), node(3, None, vec![])]),
                node(4, None, vec![node(5, None, vec![node(6, None, vec![])])]),
            ],
        ),
    ];
    let skin = Skin { joints: vec![0, 1, 2, 3, 4, 5, 6], inverse_bind_matrices: None };
    let joints = Joints::from_gltf(&skin, &scene).unwrap().joints;
    assert_eq!(joints.len(), 7);
    for (k, joint) in joints.iter().enumerate() {
        match joint.parent {
            Some(p) => assert!(p < k),
            None => assert_eq!(k, 0),
        }
    }
}

#[test]
fn a_node_that_is_no_joint_hands_the_parent_on() {
    let scene =
        vec![node(7, None, vec![node(8, None, vec![node(9, None, vec![node(10, None, vec![])])])])];
    let skin = Skin { joints: vec![7, 10], inverse_bind_matrices: None };
    let joints = Joints::from_gltf(&skin, &scene).unwrap().joints;
    assert_eq!(joints.len(), 2);
    assert_eq!(joints[1].node_index, 10);
    assert_eq!(joints[1].parent, Some(0));
}

#[test]
fn the_walk_ends_with_the_first_skeleton() {
    let scene = vec![
        node(0, None, vec![node(1, None, vec![node(2, None, vec![])])]),
        node(3, None, vec![node(4, None, vec![])]),
    ];
    let skin = Skin { joints: vec![1, 2, 4], inverse_bind_matrices: None };
    let joints = Joints::from_gltf(&skin, &scene).unwrap().joints;
    let nodes: Vec<usize> = joints.iter().map(|j| j.node_index).collect();
    assert_eq!(nodes, vec![1, 2]);
}

#[test]
fn a_skin_without_matrices_gets_identities() {
    let scene = vec![node(0, None, vec![node(1, None, vec![])])];
    let skin = Skin { joints: vec![1, 0], inverse_bind_matrices: None };
    let joints = Joints::from_gltf(&skin, &scene).unwrap().joints;
    assert_eq!(joints.len(), 2);
    assert_eq!(joints[0].inverse_bind_matrix, Mat4::IDENTITY);
    assert_eq!(joints[1].inverse_bind_matrix, Mat4::IDENTITY);
}

#[test]
fn a_joint_without_matrix_fails_the_walk() {
    let scene = vec![node(0, None, vec![node(1, None, vec![])])];
    let skin = Skin { joints: vec![0, 1], inverse_bind_matrices: Some(vec![Mat4::IDENTITY]) };
    assert_eq!(Joints::from_gltf(&skin, &scene), Err(JointError::MissingInverseBindMatrix));
    // The second joint is declared but not in the scene: nothing is looked up for it.
    let scene = vec![node(0, None, vec![node(2, None, vec![])])];
    assert_eq!(Joints::from_gltf(&skin, &scene).unwrap().joints.len(), 1);
}

#[test]
fn a_scene_without_joints_gives_an_empty_hierarchy() {
    let scene = vec![node(0, None, vec![node(1, None, vec![])])];
    let skin = Skin { joints: vec![], inverse_bind_matrices: None };
    assert!(Joints::from_gltf(&skin, &scene).unwrap().joints.is_empty());
    let skin = Skin { joints: vec![1], inverse_bind_matrices: None };
    assert!(Joints::from_gltf(&skin, &Vec::new()).unwrap().joints.is_empty());
}

#[test]
fn position_finds_the_first_occurrence() {
    assert_eq!(position(&vec![4, 7, 4, 7], 7), Some(1));
    assert_eq!(position(&vec![4, 7, 4, 7], 4), Some(0));
    assert_eq!(position(&vec![4, 7, 4, 7], 5), None);
    assert_eq!(position(&Vec::new(), 5), None);
}

#[test]
fn a_matrix_transform_is_decomposed() {
    let translation = Vec3::new(1.0, 2.0, 3.0);
    let scale = Vec3::new(2.0, 2.0, 2.0);
    let matrix = Mat4::from_scale_rotation_translation(scale, Quat::IDENTITY, translation);
    let parts = Transform::from_gltf(&NodeTransform::Matrix { matrix });
    assert_eq!(parts.translation, translation);
    assert_eq!(parts.scale, scale);
    assert_eq!(parts.rotation, Quat::IDENTITY);
    let same = Transform::from_gltf(&NodeTransform::Decomposed {
        translation,
        rotation: Quat::IDENTITY,
        scale,
    });
    assert_eq!(same, parts);
}

#[test]
fn a_transform_composes_translation_rotation_scale() {
    let t = Transform {
        translation: Vec3::new(1.0, 2.0, 3.0),
        rotation: Quat::from_rotation_z(std::f32::consts::FRAC_PI_2),
        scale: Vec3::new(2.0, 3.0, 4.0),
    };
    let expected = Mat4::from_translation(t.translation)
        * Mat4::from_quat(t.rotation)
        * Mat4::from_scale(t.scale);
    assert_eq!(t.matrix(), expected);
    let declared =
        NodeTransform::Decomposed { translation: t.translation, rotation: t.rotation, scale: t.scale };
    assert_eq!(declared.matrix(), expected);
    // The scale acts first: a point on the x axis is stretched, turned onto the y axis, moved.
    let p = t.matrix().transform_point3(Vec3::new(1.0, 0.0, 0.0));
    assert!((p - Vec3::new(1.0, 4.0, 3.0)).length() < 1e-5);
    let raw = NodeTransform::Matrix { matrix: expected };
    assert_eq!(raw.matrix(), expected);
}
