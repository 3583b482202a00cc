//! The errors of the library.

use vstd::prelude::*;

verus! {

/// How the values between two keyframes are found.
#[derive(Clone, Copy, PartialEq, Eq, Structural, Debug)]
pub enum Interpolation {
    Linear,
    Step,
    CubicSpline,
}

/// Why the joint hierarchy of a skin could not be built.
#[derive(Clone, Copy, PartialEq, Eq, Structural, Debug)]
pub enum JointError {
    /// The skin supplies inverse bind matrices, but none for a joint that the
    /// scene holds.
    MissingInverseBindMatrix,
}

/// Why an animation could not be read or sampled.
#[derive(Clone, Copy, PartialEq, Eq, Structural, Debug)]
pub enum AnimationError {
    /// A channel of the asset has no keyframe times.
    MissingKeyframeTimes,
    /// A channel of the asset has no keyframe values.
    MissingTransforms,
    /// A channel of the asset animates morph target weights.
    UnsupportedMorphTargets,
    /// A channel asks for an interpolation other than linear.
    UnsupportedInterpolation { mode: Interpolation },
    /// A channel has fewer keyframe values than the sample needs.
    MissingKeyframeValue,
    /// The playback control names a clip that the model does not have.
    UnknownAnimation,
}

/// Why a model could not be made from an asset.
#[derive(Clone, Copy, PartialEq, Eq, Structural, Debug)]
pub enum ModelError {
    /// The asset does not hold exactly one scene.
    NotOneScene,
    /// The joint hierarchy of a skin could not be built.
    Skin(JointError),
    /// An animation could not be read.
    Animation(AnimationError),
    /// A channel of an animation animates a node that the scene does not hold.
    UnknownChannelTarget,
}

/// The topology of a primitive.
#[derive(Clone, Copy, PartialEq, Eq, Structural, Debug)]
pub enum Mode {
    Points,
    Lines,
    LineLoop,
    LineStrip,
    Triangles,
    TriangleStrip,
    TriangleFan,
}

/// Why a primitive of a mesh could not be read.
#[derive(Clone, Copy, PartialEq, Eq, Structural, Debug)]
pub enum MeshError {
    /// The primitive is not made of triangles.
    UnsupportedMode { mode: Mode },
    /// The primitive has no positions.
    MissingPositions,
    /// The primitive has no indices.
    MissingIndices,
    /// The primitive has more than one set of texture coordinates.
    MultipleTexCoordSets,
    /// The primitive has no normals.
    MissingNormals,
    /// The joint weights of the primitive are normalized integers.
    UnsupportedWeights,
}

/// Why the skinning matrices of a skeleton could not be computed.
#[derive(Clone, Copy, PartialEq, Eq, Structural, Debug)]
pub enum SkinError {
    /// The skeleton has more joints than the shader takes.
    TooManyJoints,
    /// A joint names a parent that does not stand before it in the joint array.
    ParentOutOfOrder,
    /// A node names a skeleton that the model does not have.
    UnknownSkeleton,
}

/// Why a frame could not be prepared.
#[derive(Clone, Copy, PartialEq, Eq, Structural, Debug)]
pub enum FrameError {
    /// The clip on display could not be sampled.
    Animation(AnimationError),
    /// A skeleton could not be skinned.
    Skin(SkinError),
}

} // verus!
