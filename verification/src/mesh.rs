//! Plain mesh data: the primitives of a mesh as the asset declares them, what is
//! kept of them, and decoded texture images.

use glam::{Vec2, Vec3, Vec4};
use vstd::prelude::*;

use crate::clip::name_view;
use crate::error::{MeshError, Mode};
use crate::util::copy_of;

verus! {

/// Vertex indices of a primitive, in the width the asset stores them.
#[derive(Debug, PartialEq, Eq)]
pub enum Indices {
    U32(Vec<u32>),
    U16(Vec<u16>),
    U8(Vec<u8>),
}

/// Vertex indices as a sequence, with their width.
pub enum IndicesView {
    U32(Seq<u32>),
    U16(Seq<u16>),
    U8(Seq<u8>),
}

impl View for Indices {
    type V = IndicesView;

    open spec fn view(&self) -> IndicesView {
        match self {
            Indices::U32(buf) => IndicesView::U32(buf@),
            Indices::U16(buf) => IndicesView::U16(buf@),
            Indices::U8(buf) => IndicesView::U8(buf@),
        }
    }
}

impl Indices {
    /// The number of indices.
    pub open spec fn count(self) -> nat {
        match self {
            Indices::U32(buf) => buf@.len(),
            Indices::U16(buf) => buf@.len(),
            Indices::U8(buf) => buf@.len(),
        }
    }

    /// The number of bytes that one index takes.
    pub open spec fn width(self) -> nat {
        match self {
            Indices::U32(_) => 4,
            Indices::U16(_) => 2,
            Indices::U8(_) => 1,
        }
    }

    /// The size of the index buffer in bytes.
    pub fn size(&self) -> (bytes: usize)
        requires
            self.count() * self.width() <= usize::MAX,
        ensures
            bytes == self.count() * self.width(),
    {
        match self {
            Indices::U32(buf) => buf.len() * 4,
            Indices::U16(buf) => buf.len() * 2,
            Indices::U8(buf) => buf.len(),
        }
    }

    /// The number of indices.
    pub fn len(&self) -> (n: usize)
        ensures
            n == self.count(),
    {
        match self {
            Indices::U32(buf) => buf.len(),
            Indices::U16(buf) => buf.len(),
            Indices::U8(buf) => buf.len(),
        }
    }

    /// A copy of the indices.
    pub fn copy(&self) -> (copy: Indices)
        ensures
            copy@ == self@,
    {
        match self {
            Indices::U32(buf) => Indices::U32(copy_of(buf)),
            Indices::U16(buf) => Indices::U16(copy_of(buf)),
            Indices::U8(buf) => Indices::U8(copy_of(buf)),
        }
    }
}

/// The joint weights of a primitive in the encoding of the asset. Weights that are
/// normalized integers are not read.
#[derive(Debug, PartialEq)]
pub enum Weights {
    U8,
    U16,
    F32(Vec<Vec4>),
}

/// A primitive as the asset declares it: its topology and the vertex attributes
/// that it has.
#[derive(Debug, PartialEq)]
pub struct PrimitiveSource {
    pub mode: Mode,
    pub positions: Option<Vec<Vec3>>,
    pub indices: Option<Indices>,
    /// The sets of texture coordinates, in the order of their numbers.
    pub tex_coords: Vec<Vec<Vec2>>,
    pub normals: Option<Vec<Vec3>>,
    /// For each vertex, the joints that move it.
    pub joints: Option<Vec<[u16; 4]>>,
    /// For each vertex, how much each of its joints moves it.
    pub weights: Option<Weights>,
}

/// A mesh as the asset declares it.
#[derive(Debug, PartialEq)]
pub struct MeshSource {
    pub name: Option<String>,
    pub primitives: Vec<PrimitiveSource>,
}

/// Skin data of a primitive.
#[derive(Debug, PartialEq)]
pub struct PrimSkin {
    pub joints: Vec<[u32; 4]>,
    pub weights: Vec<Vec4>,
}

impl PrimSkin {
    pub fn new(joints: Vec<[u32; 4]>, weights: Vec<Vec4>) -> (skin: PrimSkin)
        ensures
            skin.joints == joints,
            skin.weights == weights,
    {
        PrimSkin { joints, weights }
    }
}

/// A primitive: a collection of vertices that form triangles.
#[derive(Debug, PartialEq)]
pub struct Primitive {
    pub indices: Indices,
    pub positions: Vec<Vec3>,
    pub texcoords: Vec<Vec2>,
    pub normals: Vec<Vec3>,
    pub skin: Option<PrimSkin>,
}

/// A mesh holds several primitives.
#[derive(Debug, PartialEq)]
pub struct Mesh {
    pub primitives: Vec<Primitive>,
    pub name: Option<String>,
}

/// Skin data as sequences.
pub struct PrimSkinView {
    pub joints: Seq<[u32; 4]>,
    pub weights: Seq<Vec4>,
}

/// What a primitive holds, as sequences.
pub struct PrimitiveView {
    pub indices: IndicesView,
    pub positions: Seq<Vec3>,
    pub texcoords: Seq<Vec2>,
    pub normals: Seq<Vec3>,
    pub skin: Option<PrimSkinView>,
}

impl View for Primitive {
    type V = PrimitiveView;

    open spec fn view(&self) -> PrimitiveView {
        PrimitiveView {
            indices: self.indices@,
            positions: self.positions@,
            texcoords: self.texcoords@,
            normals: self.normals@,
            skin: match self.skin {
                Some(skin) => Some(PrimSkinView { joints: skin.joints@, weights: skin.weights@ }),
                None => None,
            },
        }
    }
}

/// The views of a sequence of primitives.
pub open spec fn primitive_views(primitives: Seq<Primitive>) -> Seq<PrimitiveView> {
    Seq::new(primitives.len(), |i: int| primitives[i]@)
}

/// Whether `wide` holds the four joint numbers of `narrow`.
pub open spec fn widened(narrow: [u16; 4], wide: [u32; 4]) -> bool {
    forall|k: int| 0 <= k < 4 ==> #[trigger] wide[k] == narrow[k]
}

/// Whether `wide` holds the joint numbers of `narrow`, vertex by vertex.
pub open spec fn all_widened(narrow: Seq<[u16; 4]>, wide: Seq<[u32; 4]>) -> bool {
    wide.len() == narrow.len() && forall|i: int|
        0 <= i < narrow.len() ==> widened(narrow[i], #[trigger] wide[i])
}

impl PrimitiveSource {
    /// What keeps the primitive from being read, if anything. The topology is
    /// looked at first, then positions, indices, texture coordinates, normals and
    /// weights.
    pub open spec fn fault(self) -> Option<MeshError> {
        if self.mode != Mode::Triangles {
            Some(MeshError::UnsupportedMode { mode: self.mode })
        } else if self.positions.is_none() {
            Some(MeshError::MissingPositions)
        } else if self.indices.is_none() {
            Some(MeshError::MissingIndices)
        } else if self.tex_coords@.len() > 1 {
            Some(MeshError::MultipleTexCoordSets)
        } else if self.normals.is_none() {
            Some(MeshError::MissingNormals)
        } else if self.joints.is_some() && (self.weights == Some(Weights::U8) || self.weights
            == Some(Weights::U16)) {
            Some(MeshError::UnsupportedWeights)
        } else {
            None
        }
    }

    /// Whether the primitive is skinned: it has both joints and weights.
    pub open spec fn skinned(self) -> bool {
        self.joints.is_some() && self.weights.is_some()
    }

    /// Whether `primitive` is what a source without fault gives: its attributes,
    /// the one set of texture coordinates if there is one, and the skin if it has
    /// both joints and weights.
    pub open spec fn gives(self, primitive: PrimitiveView) -> bool {
        &&& primitive.positions == self.positions->0@
        &&& primitive.indices == self.indices->0@
        &&& primitive.normals == self.normals->0@
        &&& primitive.texcoords == if self.tex_coords@.len() == 0 {
            Seq::<Vec2>::empty()
        } else {
            self.tex_coords@[0]@
        }
        &&& primitive.skin.is_some() == self.skinned()
        &&& self.skinned() ==> {
            &&& all_widened(self.joints->0@, primitive.skin->0.joints)
            &&& self.weights matches Some(Weights::F32(weights)) && primitive.skin->0.weights
                == weights@
        }
    }
}

/// The fault of the first of the first `n` primitives that has one.
pub open spec fn first_primitive_fault(primitives: Seq<PrimitiveSource>, n: nat) -> Option<
    MeshError,
>
    decreases n,
{
    if n == 0 {
        None
    } else {
        match first_primitive_fault(primitives, (n - 1) as nat) {
            Some(e) => Some(e),
            None => primitives[n - 1].fault(),
        }
    }
}

/// A fault among the first primitives is a fault of the whole list.
pub proof fn lemma_primitive_fault_stays(primitives: Seq<PrimitiveSource>, n: nat, m: nat)
    requires
        n <= m,
        first_primitive_fault(primitives, n).is_some(),
    ensures
        first_primitive_fault(primitives, m) == first_primitive_fault(primitives, n),
    decreases m - n,
{
    if n < m {
        lemma_primitive_fault_stays(primitives, n, (m - 1) as nat);
    }
}

/// The joint numbers of every vertex in 32 bits.
pub fn widen_joints(joints: &Vec<[u16; 4]>) -> (wide: Vec<[u32; 4]>)
    ensures
        all_widened(joints@, wide@),
{
    let mut wide: Vec<[u32; 4]> = Vec::new();
    let mut i: usize = 0;
    while i < joints.len()
        invariant
            i <= joints.len(),
            wide.len() == i,
            forall|k: int| 0 <= k < i ==> widened(joints@[k], #[trigger] wide@[k]),
        decreases joints.len() - i,
    {
        let j = joints[i];
        let w: [u32; 4] = [j[0] as u32, j[1] as u32, j[2] as u32, j[3] as u32];
        wide.push(w);
        i += 1;
    }
    wide
}

impl Primitive {
    /// Reads a primitive of the asset.
    pub fn from_gltf(source: &PrimitiveSource) -> (read: Result<Primitive, MeshError>)
        ensures
            match read {
                Ok(primitive) => source.fault().is_none() && source.gives(primitive@),
                Err(e) => source.fault() == Some(e),
            },
    {
        match source.mode {
            Mode::Triangles => {},
            mode => {
                return Err(MeshError::UnsupportedMode { mode });
            },
        }
        let positions = match &source.positions {
            Some(positions) => copy_of(positions),
            None => {
                return Err(MeshError::MissingPositions);
            },
        };
        let indices = match &source.indices {
            Some(indices) => indices.copy(),
            None => {
                return Err(MeshError::MissingIndices);
            },
        };
        if source.tex_coords.len() > 1 {
            return Err(MeshError::MultipleTexCoordSets);
        }
        let texcoords = if source.tex_coords.len() == 1 {
            copy_of(&source.tex_coords[0])
        } else {
            Vec::new()
        };
        let normals = match &source.normals {
            Some(normals) => copy_of(normals),
            None => {
                return Err(MeshError::MissingNormals);
            },
        };
        let skin = match (&source.joints, &source.weights) {
            (Some(joints), Some(weights)) => {
                match weights {
                    Weights::U8 => {
                        return Err(MeshError::UnsupportedWeights);
                    },
                    Weights::U16 => {
                        return Err(MeshError::UnsupportedWeights);
                    },
                    Weights::F32(weights) => Some(
                        PrimSkin::new(widen_joints(joints), copy_of(weights)),
                    ),
                }
            },
            _ => None,
        };
        Ok(Primitive { indices, positions, texcoords, normals, skin })
    }
}

impl Mesh {
    /// Reads a mesh of the asset, primitive by primitive.
    pub fn from_gltf(source: &MeshSource) -> (read: Result<Mesh, MeshError>)
        ensures
            match read {
                Ok(mesh) => {
                    &&& first_primitive_fault(source.primitives@, source.primitives@.len()).is_none()
                    &&& name_view(mesh.name) == name_view(source.name)
                    &&& mesh.primitives@.len() == source.primitives@.len()
                    &&& forall|i: int|
                        0 <= i < source.primitives@.len() ==> (#[trigger] source.primitives@[i]).gives(
                            mesh.primitives@[i]@,
                        )
                },
                Err(e) => first_primitive_fault(source.primitives@, source.primitives@.len())
                    == Some(e),
            },
    {
        let name = match &source.name {
            Some(name) => Some(name.clone()),
            None => None,
        };
        let mut primitives: Vec<Primitive> = Vec::new();
        let mut i: usize = 0;
        while i < source.primitives.len()
            invariant
                i <= source.primitives.len(),
                primitives.len() == i,
                first_primitive_fault(source.primitives@, i as nat).is_none(),
                forall|k: int|
                    0 <= k < i ==> (#[trigger] source.primitives@[k]).gives(primitives@[k]@),
            decreases source.primitives.len() - i,
        {
            match Primitive::from_gltf(&source.primitives[i]) {
                Ok(primitive) => {
                    primitives.push(primitive);
                },
                Err(e) => {
                    proof {
                        lemma_primitive_fault_stays(
                            source.primitives@,
                            (i + 1) as nat,
                            source.primitives@.len(),
                        );
                    }
                    return Err(e);
                },
            }
            i += 1;
        }
        Ok(Mesh { primitives, name })
    }
}

/// A decoded image: tightly packed pixels, row by row.
#[derive(Debug, PartialEq, Eq)]
pub struct Texture {
    pub pixels: Vec<u8>,
    pub width: u32,
    pub height: u32,
}

impl Texture {
    pub fn new(pixels: Vec<u8>, width: u32, height: u32) -> (t: Texture)
        ensures
            t.pixels == pixels,
            t.width == width,
            t.height == height,
    {
        Texture { pixels, width, height }
    }
}

} // verus!
