//! Local transforms: translation, rotation and scale, and the matrix they compose.

use glam::{Mat4, Quat, Vec3};
use vstd::prelude::*;

use crate::linalg::{
    mat4_from_quat, mat4_from_scale, mat4_from_translation, mat4_mul,
    mat4_to_scale_rotation_translation, matrix_decomposition, matrix_product, rotation_matrix,
    scale_matrix, translation_matrix,
};

verus! {

/// The transform that a scene node declares: either a raw matrix, or its three
/// parts.
#[derive(Clone, Copy, Debug, PartialEq)]
pub enum NodeTransform {
    Matrix { matrix: Mat4 },
    Decomposed { translation: Vec3, rotation: Quat, scale: Vec3 },
}

/// The transformation of a node or a joint, relative to its parent.
#[derive(Clone, Copy, Debug, PartialEq)]
pub struct Transform {
    /// Local translation relative to the parent joint.
    pub translation: Vec3,
    /// Local rotation relative to the parent joint.
    pub rotation: Quat,
    /// Local scale relative to the parent joint.
    pub scale: Vec3,
}

/// The matrix `T * R * S` of a translation, a rotation and a scale.
pub open spec fn trs_matrix(translation: Vec3, rotation: Quat, scale: Vec3) -> Mat4 {
    matrix_product(
        matrix_product(translation_matrix(translation), rotation_matrix(rotation)),
        scale_matrix(scale),
    )
}

impl NodeTransform {
    /// The three parts of the declared transform. A raw matrix is decomposed.
    pub open spec fn parts(self) -> Transform {
        match self {
            NodeTransform::Matrix { matrix } => {
                let (scale, rotation, translation) = matrix_decomposition(matrix);
                Transform { translation, rotation, scale }
            },
            NodeTransform::Decomposed { translation, rotation, scale } => Transform {
                translation,
                rotation,
                scale,
            },
        }
    }

    /// The declared transform as one matrix. Three parts compose as `T * R * S`.
    pub open spec fn matrix_spec(self) -> Mat4 {
        match self {
            NodeTransform::Matrix { matrix } => matrix,
            NodeTransform::Decomposed { translation, rotation, scale } => trs_matrix(
                translation,
                rotation,
                scale,
            ),
        }
    }

    /// The declared transform as one matrix.
    pub fn matrix(&self) -> (m: Mat4)
        ensures
            m == self.matrix_spec(),
    {
        match self {
            NodeTransform::Matrix { matrix } => *matrix,
            NodeTransform::Decomposed { translation, rotation, scale } => {
                let t = mat4_from_translation(*translation);
                let r = mat4_from_quat(*rotation);
                let s = mat4_from_scale(*scale);
                let tr = mat4_mul(&t, &r);
                mat4_mul(&tr, &s)
            },
        }
    }
}

impl Transform {
    /// The transform of a scene node, split into its three parts.
    pub fn from_gltf(transform: &NodeTransform) -> (t: Transform)
        ensures
            t == transform.parts(),
    {
        match transform {
            NodeTransform::Matrix { matrix } => {
                let (scale, rotation, translation) = mat4_to_scale_rotation_translation(matrix);
                Transform { translation, rotation, scale }
            },
            NodeTransform::Decomposed { translation, rotation, scale } => Transform {
                translation: *translation,
                rotation: *rotation,
                scale: *scale,
            },
        }
    }

    /// The matrix `T * R * S` of this transform.
    pub open spec fn matrix_spec(self) -> Mat4 {
        trs_matrix(self.translation, self.rotation, self.scale)
    }

    /// The matrix combined from translation, rotation and scale, in that order.
    pub fn matrix(&self) -> (m: Mat4)
        ensures
            m == self.matrix_spec(),
    {
        let t = mat4_from_translation(self.translation);
        let r = mat4_from_quat(self.rotation);
        let s = mat4_from_scale(self.scale);
        let tr = mat4_mul(&t, &r);
        mat4_mul(&tr, &s)
    }
}

} // verus!
