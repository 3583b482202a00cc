//! The vectors, quaternions and matrices of `glam`, and the operations on them that
//! the library relies on.
//!
//! Verus cannot look inside a `glam` value, so every operation here is trusted: its
//! result is given a name, and the contracts of the rest of the library are stated
//! over those names. Verified here are [`mat4_identity`] and [`is_negative`], the
//! sign test on a single-precision bit pattern.

use glam::{Mat4, Quat, Vec2, Vec3, Vec4};
use vstd::prelude::*;

verus! {

/// `glam::Vec2`, a vector of two single-precision numbers. Verus sees nothing of
/// what it holds.
#[verifier::external_type_specification]
#[verifier::external_body]
pub struct ExVec2(Vec2);

/// `glam::Vec3`, a vector of three single-precision numbers. Verus sees nothing of
/// what it holds.
#[verifier::external_type_specification]
#[verifier::external_body]
pub struct ExVec3(Vec3);

/// `glam::Vec4`, a vector of four single-precision numbers. Verus sees nothing of
/// what it holds.
#[verifier::external_type_specification]
#[verifier::external_body]
pub struct ExVec4(Vec4);

/// `glam::Quat`, a quaternion. Verus sees nothing of what it holds.
#[verifier::external_type_specification]
#[verifier::external_body]
pub struct ExQuat(Quat);

/// `glam::Mat4`, a matrix of four columns. Verus sees nothing of what it holds.
#[verifier::external_type_specification]
#[verifier::external_body]
pub struct ExMat4(Mat4);

/// The matrix that `Mat4::from_translation` builds from a translation.
pub uninterp spec fn translation_matrix(translation: Vec3) -> Mat4;

/// The matrix that `Mat4::from_quat` builds from a rotation.
pub uninterp spec fn rotation_matrix(rotation: Quat) -> Mat4;

/// The matrix that `Mat4::from_scale` builds from a scale.
pub uninterp spec fn scale_matrix(scale: Vec3) -> Mat4;

/// The product `a * b` as `Mat4::mul_mat4` computes it.
pub uninterp spec fn matrix_product(a: Mat4, b: Mat4) -> Mat4;

/// Scale, rotation and translation as `Mat4::to_scale_rotation_translation` extracts them.
pub uninterp spec fn matrix_decomposition(m: Mat4) -> (Vec3, Quat, Vec3);

/// `n` copies of `Mat4::IDENTITY`.
pub uninterp spec fn identity_matrices(n: nat) -> Seq<Mat4>;

/// `Vec3::lerp` from `a` to `b` at the weight `num / den`.
pub uninterp spec fn vec3_lerp(a: Vec3, b: Vec3, num: u64, den: u64) -> Vec3;

/// `Quat::slerp` from `a` to `b` at the weight `num / den`.
pub uninterp spec fn quat_slerp(a: Quat, b: Quat, num: u64, den: u64) -> Quat;

/// The quaternion that `Quat::normalize` returns.
pub uninterp spec fn quat_normalized(q: Quat) -> Quat;

/// The quaternion that unary minus returns.
pub uninterp spec fn quat_negated(q: Quat) -> Quat;

/// The bit pattern of the single-precision number that `Quat::dot` returns.
pub uninterp spec fn quat_dot(a: Quat, b: Quat) -> u32;

/// The quaternion whose components are the single-precision quotients
/// `x / den`, `y / den`, `z / den` and `w / den`.
pub uninterp spec fn quat_of_fractions(x: i32, y: i32, z: i32, w: i32, den: i32) -> Quat;

/// Calls `Mat4::from_translation`. The result is named, not described.
#[verifier::external_body]
pub(crate) fn mat4_from_translation(translation: Vec3) -> (m: Mat4)
    ensures
        m == translation_matrix(translation),
{
    Mat4::from_translation(translation)
}

/// Calls `Mat4::from_quat`. The result is named, not described. Without the
/// `glam-assert` feature the call accepts rotations of any length.
#[verifier::external_body]
pub(crate) fn mat4_from_quat(rotation: Quat) -> (m: Mat4)
    ensures
        m == rotation_matrix(rotation),
{
    Mat4::from_quat(rotation)
}

/// Calls `Mat4::from_scale`. The result is named, not described.
#[verifier::external_body]
pub(crate) fn mat4_from_scale(scale: Vec3) -> (m: Mat4)
    ensures
        m == scale_matrix(scale),
{
    Mat4::from_scale(scale)
}

/// Calls `Mat4::mul_mat4`, the matrix product `a * b`. The result is named, not
/// described.
#[verifier::external_body]
pub(crate) fn mat4_mul(a: &Mat4, b: &Mat4) -> (m: Mat4)
    ensures
        m == matrix_product(*a, *b),
{
    a.mul_mat4(b)
}

/// Calls `Mat4::to_scale_rotation_translation`. The three parts are named, not
/// described; they come back in the order scale, rotation, translation.
#[verifier::external_body]
pub(crate) fn mat4_to_scale_rotation_translation(m: &Mat4) -> (parts: (Vec3, Quat, Vec3))
    ensures
        parts == matrix_decomposition(*m),
{
    m.to_scale_rotation_translation()
}

/// Builds a vector of `n` copies of `Mat4::IDENTITY`. The contract fixes the length,
/// names the content, and says that every entry is the one matrix that a vector of
/// length 1 holds.
#[verifier::external_body]
pub(crate) fn mat4_identities(n: usize) -> (v: Vec<Mat4>)
    ensures
        v@ == identity_matrices(n as nat),
        v@.len() == n,
        forall|i: int| 0 <= i < n ==> v@[i] == identity_matrices(1)[0],
{
    vec![Mat4::IDENTITY; n]
}

/// Calls `Vec3::lerp`. The weight handed to it is the single-precision quotient of
/// the durations of `num` and of `den` nanoseconds, as `Duration::div_duration_f32`
/// forms it. The result is named, not described.
#[verifier::external_body]
pub(crate) fn vec3_lerp_at(a: Vec3, b: Vec3, num: u64, den: u64) -> (v: Vec3)
    ensures
        v == vec3_lerp(a, b, num, den),
{
    let num = std::time::Duration::from_nanos(num);
    let den = std::time::Duration::from_nanos(den);
    a.lerp(b, num.div_duration_f32(den))
}

/// Calls `Quat::slerp`. The weight handed to it is the single-precision quotient of
/// the durations of `num` and of `den` nanoseconds, as `Duration::div_duration_f32`
/// forms it. The result is named, not described.
#[verifier::external_body]
pub(crate) fn quat_slerp_at(a: Quat, b: Quat, num: u64, den: u64) -> (q: Quat)
    ensures
        q == quat_slerp(a, b, num, den),
{
    let num = std::time::Duration::from_nanos(num);
    let den = std::time::Duration::from_nanos(den);
    a.slerp(b, num.div_duration_f32(den))
}

/// Calls `Quat::normalize`. The result is named, not described.
#[verifier::external_body]
pub(crate) fn quat_normalize(q: Quat) -> (n: Quat)
    ensures
        n == quat_normalized(q),
{
    q.normalize()
}

/// Calls the unary minus of `Quat`. The result is named, not described.
#[verifier::external_body]
pub(crate) fn quat_neg(q: Quat) -> (n: Quat)
    ensures
        n == quat_negated(q),
{
    -q
}

/// Calls `Quat::dot` and hands back the bit pattern of the number it returns. The
/// bit pattern is named, not described.
#[verifier::external_body]
pub(crate) fn quat_dot_bits(a: Quat, b: Quat) -> (bits: u32)
    ensures
        bits == quat_dot(a, b),
{
    a.dot(b).to_bits()
}

/// Divides the integer vector `(x, y, z, w)` by `den` component by component, with
/// the division of `Vec4`, after `IVec4::as_vec4` has turned both into
/// single-precision vectors, and reads the quotient as a quaternion with
/// `Quat::from_vec4`. The result is named, not described.
#[verifier::external_body]
pub(crate) fn quat_from_fractions(x: i32, y: i32, z: i32, w: i32, den: i32) -> (q: Quat)
    ensures
        q == quat_of_fractions(x, y, z, w, den),
{
    let numerators = glam::IVec4::new(x, y, z, w).as_vec4();
    let denominators = glam::IVec4::splat(den).as_vec4();
    Quat::from_vec4(numerators / denominators)
}

/// The identity matrix.
pub open spec fn identity_matrix() -> Mat4 {
    identity_matrices(1)[0]
}

/// The identity matrix.
pub fn mat4_identity() -> (m: Mat4)
    ensures
        m == identity_matrix(),
{
    let one = mat4_identities(1);
    one[0]
}

/// Whether the single-precision number with the bit pattern `bits` is below zero:
/// its sign bit is set, and it is neither zero nor a NaN.
pub open spec fn negative(bits: u32) -> bool {
    0x8000_0000 < bits <= 0xff80_0000
}

/// Tells whether a single-precision bit pattern stands for a number below zero.
pub fn is_negative(bits: u32) -> (r: bool)
    ensures
        r == negative(bits),
{
    0x8000_0000 < bits && bits <= 0xff80_0000
}

} // verus!
