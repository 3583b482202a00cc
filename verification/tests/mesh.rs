use glam::{Mat4, Quat, Vec2, Vec3, Vec4};
use skeletal::error::{MeshError, Mode};
use skeletal::joints::{Joint, Joints};
use skeletal::mesh::{
    widen_joints, Indices, Mesh, MeshSource, PrimSkin, Primitive, PrimitiveSource, Texture, Weights,
};
use skeletal::transform::Transform;
use skeletal::util::copy_of;

fn triangle() -> PrimitiveSource {
    PrimitiveSource {
        mode: Mode::Triangles,
        positions: Some(vec![Vec3::ZERO, Vec3::X, Vec3::Y]),
        indices: Some(Indices::U16(vec![0, 1, 2])),
        tex_coords: vec![vec![Vec2::ZERO, Vec2::X, Vec2::Y]],
        normals: Some(vec![Vec3::Z, Vec3::Z, Vec3::Z]),
        joints: None,
        weights: None,
    }
}

#[test]
fn a_primitive_keeps_its_attributes() {
    let read = Primitive::from_gltf(&triangle()).unwrap();
    assert_eq!(read.positions, vec![Vec3::ZERO, Vec3::X, Vec3::Y]);
    assert_eq!(read.indices, Indices::U16(vec![0, 1, 2]));
    assert_eq!(read.texcoords, vec![Vec2::ZERO, Vec2::X, Vec2::Y]);
    assert_eq!(read.normals, vec![Vec3::Z, Vec3::Z, Vec3::Z]);
    assert_eq!(read.skin, None);
    let mut bare = triangle();
    bare.tex_coords.clear();
    assert!(Primitive::from_gltf(&bare).unwrap().texcoords.is_empty());
}

#[test]
fn a_skin_needs_joints_and_weights() {
    let mut skinned = triangle();
    skinned.joints = Some(vec![[0, 1, 2, 65535], [3, 0, 0, 0], [0, 0, 0, 0]]);
    skinned.weights = Some(Weights::F32(vec![Vec4::X, Vec4::Y, Vec4::Z]));
    let read = Primitive::from_gltf(&skinned).unwrap();
    assert_eq!(
        read.skin,
        Some(PrimSkin::new(
            vec![[0, 1, 2, 65535], [3, 0, 0, 0], [0, 0, 0, 0]],
            vec![Vec4::X, Vec4::Y, Vec4::Z]
        ))
    );
    skinned.weights = None;
    assert_eq!(Primitive::from_gltf(&skinned).unwrap().skin, None);
    skinned.joints = None;
    skinned.weights = Some(Weights::F32(vec![Vec4::X]));
    assert_eq!(Primitive::from_gltf(&skinned).unwrap().skin, None);
    // Without joints the encoding of the weights does not matter.
    skinned.weights = Some(Weights::U8);
    assert_eq!(Primitive::from_gltf(&skinned).unwrap().skin, None);
}

#[test]
fn faults_of_a_primitive_come_in_order() {
    let mut source = triangle();
    source.joints = Some(vec![[0, 0, 0, 0]]);
    source.weights = Some(Weights::U16);
    assert_eq!(Primitive::from_gltf(&source), Err(MeshError::UnsupportedWeights));
    source.weights = Some(Weights::U8);
    assert_eq!(Primitive::from_gltf(&source), Err(MeshError::UnsupportedWeights));
    source.normals = None;
    assert_eq!(Primitive::from_gltf(&source), Err(MeshError::MissingNormals));
    source.tex_coords.push(vec![Vec2::ZERO]);
    assert_eq!(Primitive::from_gltf(&source), Err(MeshError::MultipleTexCoordSets));
    source.indices = None;
    assert_eq!(Primitive::from_gltf(&source), Err(MeshError::MissingIndices));
    source.positions = None;
    assert_eq!(Primitive::from_gltf(&source), Err(MeshError::MissingPositions));
    for mode in [
        Mode::Points,
        Mode::Lines,
        Mode::LineLoop,
        Mode::LineStrip,
        Mode::TriangleStrip,
        Mode::TriangleFan,
    ] {
        source.mode = mode;
        assert_eq!(Primitive::from_gltf(&source), Err(MeshError::UnsupportedMode { mode }));
    }
}

#[test]
fn a_mesh_is_read_primitive_by_primitive() {
    let mut second = triangle();
    second.indices = Some(Indices::U32(vec![2, 1, 0]));
    let source =
        MeshSource { name: Some("cube".to_string()), primitives: vec![triangle(), second] };
    let mesh = Mesh::from_gltf(&source).unwrap();
    assert_eq!(mesh.name.as_deref(), Some("cube"));
    assert_eq!(mesh.primitives.len(), 2);
    assert_eq!(mesh.primitives[0].indices, Indices::U16(vec![0, 1, 2]));
    assert_eq!(mesh.primitives[1].indices, Indices::U32(vec![2, 1, 0]));
    let mut broken = triangle();
    broken.normals = None;
    let mut lines = triangle();
    lines.mode = Mode::Lines;
    let source = MeshSource { name: None, primitives: vec![triangle(), broken, lines] };
    assert_eq!(Mesh::from_gltf(&source), Err(MeshError::MissingNormals));
    let empty = Mesh::from_gltf(&MeshSource { name: None, primitives: Vec::new() }).unwrap();
    assert!(empty.primitives.is_empty());
    assert_eq!(empty.name, None);
}

#[test]
fn indices_know_their_size() {
    let wide = Indices::U32(vec![1, 2, 3]);
    assert_eq!((wide.len(), wide.size()), (3, 12));
    let medium = Indices::U16(vec![1, 2, 3, 4]);
    assert_eq!((medium.len(), medium.size()), (4, 8));
    let narrow = Indices::U8(vec![1, 2, 3, 4, 5]);
    assert_eq!((narrow.len(), narrow.size()), (5, 5));
    let none = Indices::U32(Vec::new());
    assert_eq!((none.len(), none.size()), (0, 0));
    assert_eq!(medium.copy(), medium);
}

#[test]
fn copies_and_widened_joints_keep_their_values() {
    assert_eq!(copy_of(&vec![3u8, 1, 2]), vec![3, 1, 2]);
    assert_eq!(copy_of(&Vec::<Vec3>::new()), Vec::new());
    assert_eq!(
        widen_joints(&vec![[1, 2, 3, 4], [65535, 0, 0, 0]]),
        vec![[1u32, 2, 3, 4], [65535, 0, 0, 0]]
    );
}

#[test]
fn a_texture_keeps_its_pixels() {
    let texture = Texture::new(vec![1, 2, 3, 4], 1, 1);
    assert_eq!(texture.pixels, vec![1, 2, 3, 4]);
    assert_eq!((texture.width, texture.height), (1, 1));
}

#[test]
fn bones_join_joints_to_their_parents() {
    let rest = Transform { translation: Vec3::ZERO, rotation: Quat::IDENTITY, scale: Vec3::ONE };
    let joint = |parent| Joint::new(0, parent, Mat4::IDENTITY, rest, String::new());
    let skeleton =
        Joints { joints: vec![joint(None), joint(Some(0)), joint(None), joint(Some(1))] };
    assert_eq!(skeleton.bones(), vec![(1, 0), (3, 1)]);
    assert!(Joints { joints: Vec::new() }.bones().is_empty());
}
