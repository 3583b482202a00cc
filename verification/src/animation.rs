//! Keyframe animation: channels of timed values, and the value of a channel at a
//! point in time.
//!
//! Times are whole nanoseconds. The weight of an interpolation is the quotient of
//! two spans of time and is handed on as its numerator and denominator.

use glam::{Quat, Vec3};
use vstd::prelude::*;

use crate::error::{AnimationError, Interpolation};
use crate::linalg::{
    is_negative, negative, quat_dot, quat_dot_bits, quat_neg, quat_negated, quat_normalize,
    quat_normalized, quat_slerp, quat_slerp_at, vec3_lerp, vec3_lerp_at,
};

verus! {

/// The keyframe values of a channel. A channel animates one component of a
/// transform.
#[derive(Debug, PartialEq)]
pub enum AnimationTransforms {
    Translations(Vec<Vec3>),
    Rotations(Vec<Quat>),
    Scales(Vec<Vec3>),
}

/// One value of a channel.
#[derive(Clone, Copy, Debug, PartialEq)]
pub enum AnimationTransform {
    Translation(Vec3),
    Rotation(Quat),
    Scale(Vec3),
}

/// The keyframe values of a channel as sequences.
pub enum TransformsView {
    Translations(Seq<Vec3>),
    Rotations(Seq<Quat>),
    Scales(Seq<Vec3>),
}

impl View for AnimationTransforms {
    type V = TransformsView;

    open spec fn view(&self) -> TransformsView {
        match self {
            AnimationTransforms::Translations(values) => TransformsView::Translations(values@),
            AnimationTransforms::Rotations(values) => TransformsView::Rotations(values@),
            AnimationTransforms::Scales(values) => TransformsView::Scales(values@),
        }
    }
}

/// The rotation between the keyframes `start` and `end` at the weight `num / den`.
///
/// Both keyframes are normalized. Where their dot product is below zero the start
/// is negated, so that the spherical interpolation takes the short way round. The
/// interpolated rotation is normalized again.
pub open spec fn rotation_between(start: Quat, end: Quat, num: u64, den: u64) -> Quat {
    let start = quat_normalized(start);
    let end = quat_normalized(end);
    let from = if negative(quat_dot(start, end)) {
        quat_negated(start)
    } else {
        start
    };
    quat_normalized(quat_slerp(from, end, num, den))
}

impl TransformsView {
    /// The number of keyframe values.
    pub open spec fn len(self) -> nat {
        match self {
            TransformsView::Translations(values) => values.len(),
            TransformsView::Rotations(values) => values.len(),
            TransformsView::Scales(values) => values.len(),
        }
    }

    /// The keyframe value at `index`.
    pub open spec fn value(self, index: int) -> AnimationTransform {
        match self {
            TransformsView::Translations(values) => AnimationTransform::Translation(values[index]),
            TransformsView::Rotations(values) => AnimationTransform::Rotation(values[index]),
            TransformsView::Scales(values) => AnimationTransform::Scale(values[index]),
        }
    }

    /// The value between the keyframes `start` and `start + 1` at the weight
    /// `num / den`: translations and scales are interpolated linearly, component
    /// by component; rotations spherically.
    pub open spec fn between(self, start: int, num: u64, den: u64) -> AnimationTransform {
        match self {
            TransformsView::Translations(values) => AnimationTransform::Translation(
                vec3_lerp(values[start], values[start + 1], num, den),
            ),
            TransformsView::Rotations(values) => AnimationTransform::Rotation(
                rotation_between(values[start], values[start + 1], num, den),
            ),
            TransformsView::Scales(values) => AnimationTransform::Scale(
                vec3_lerp(values[start], values[start + 1], num, den),
            ),
        }
    }
}

/// Where a point in time falls among the keyframes of a channel.
#[derive(Clone, Copy, PartialEq, Eq, Structural, Debug)]
pub enum KeyframeSpan {
    /// The value of the keyframe `index` holds as it is.
    Fixed { index: usize },
    /// The time lies between the keyframes `start` and `start + 1`.
    Between { start: usize },
}

/// The first index `k >= from` with `times[k] <= time < times[k + 1]`; where there
/// is none, the index of the last keyframe.
pub open spec fn bracket_from(times: Seq<i64>, time: i64, from: nat) -> nat
    decreases times.len() - from,
{
    if from + 1 >= times.len() {
        from
    } else if times[from as int] <= time < times[from as int + 1] {
        from
    } else {
        bracket_from(times, time, from + 1)
    }
}

/// Where `time` falls among the keyframe times `times`.
///
/// Without keyframes there is no span. Before the first keyframe the first one
/// holds. From there on the first pair of neighbours that encloses `time` counts;
/// where no pair does, the last keyframe holds.
pub open spec fn span_of(times: Seq<i64>, time: i64) -> Option<KeyframeSpan> {
    if times.len() == 0 {
        None
    } else if time < times[0] {
        Some(KeyframeSpan::Fixed { index: 0 })
    } else {
        let k = bracket_from(times, time, 0);
        if k + 1 < times.len() {
            Some(KeyframeSpan::Between { start: k as usize })
        } else {
            Some(KeyframeSpan::Fixed { index: (times.len() - 1) as usize })
        }
    }
}

/// Whether the times grow from each keyframe to the next.
pub open spec fn ascending(times: Seq<i64>) -> bool {
    forall|i: int, j: int| 0 <= i < j < times.len() ==> times[i] < times[j]
}

/// A channel: the keyframes that animate one component of the transform of one
/// node.
#[derive(Debug, PartialEq)]
pub struct Channel {
    /// Index of the node that the channel applies to.
    pub node: usize,
    /// Times of the keyframes, in nanoseconds.
    pub keyframe_times: Vec<i64>,
    /// The values of the keyframes.
    pub transforms: AnimationTransforms,
    /// How values between keyframes are found.
    pub interpolation_type: Interpolation,
}

/// What a channel holds, as sequences.
pub struct ChannelView {
    pub node: usize,
    pub keyframe_times: Seq<i64>,
    pub transforms: TransformsView,
    pub interpolation_type: Interpolation,
}

impl View for Channel {
    type V = ChannelView;

    open spec fn view(&self) -> ChannelView {
        ChannelView {
            node: self.node,
            keyframe_times: self.keyframe_times@,
            transforms: self.transforms@,
            interpolation_type: self.interpolation_type,
        }
    }
}

impl ChannelView {
    /// The value of the keyframe `index`; an error where the channel is not linear
    /// or has no such value.
    pub open spec fn fixed(self, index: int) -> Result<AnimationTransform, AnimationError> {
        if self.interpolation_type != Interpolation::Linear {
            Err(AnimationError::UnsupportedInterpolation { mode: self.interpolation_type })
        } else if index >= self.transforms.len() {
            Err(AnimationError::MissingKeyframeValue)
        } else {
            Ok(self.transforms.value(index))
        }
    }

    /// The value between the keyframes `start` and `start + 1` at the weight
    /// `num / den`; an error where the channel is not linear or lacks one of the
    /// two values.
    pub open spec fn interpolated(self, start: int, num: u64, den: u64) -> Result<
        AnimationTransform,
        AnimationError,
    > {
        if self.interpolation_type != Interpolation::Linear {
            Err(AnimationError::UnsupportedInterpolation { mode: self.interpolation_type })
        } else if start + 1 >= self.transforms.len() {
            Err(AnimationError::MissingKeyframeValue)
        } else {
            Ok(self.transforms.between(start, num, den))
        }
    }

    /// The value of the channel at `time`; none for a channel without keyframes.
    ///
    /// Between two keyframes the weight of the interpolation is the time since the
    /// first over the time from the first to the second.
    pub open spec fn at(self, time: i64) -> Result<Option<AnimationTransform>, AnimationError> {
        match span_of(self.keyframe_times, time) {
            None => Ok(None),
            Some(KeyframeSpan::Fixed { index }) => match self.fixed(index as int) {
                Ok(value) => Ok(Some(value)),
                Err(e) => Err(e),
            },
            Some(KeyframeSpan::Between { start }) => match self.interpolated(
                start as int,
                (time - self.keyframe_times[start as int]) as u64,
                (self.keyframe_times[start + 1] - self.keyframe_times[start as int]) as u64,
            ) {
                Ok(value) => Ok(Some(value)),
                Err(e) => Err(e),
            },
        }
    }
}

/// Finds where `time` falls among the keyframe times `times`.
pub fn locate(times: &Vec<i64>, time: i64) -> (span: Option<KeyframeSpan>)
    ensures
        span == span_of(times@, time),
{
    let n = times.len();
    if n == 0 {
        return None;
    }
    if time < times[0] {
        return Some(KeyframeSpan::Fixed { index: 0 });
    }
    let mut i: usize = 0;
    while i + 1 < n
        invariant
            n == times.len(),
            n > 0,
            i < n,
            times[0] <= time,
            bracket_from(times@, time, 0) == bracket_from(times@, time, i as nat),
        decreases n - i,
    {
        if times[i] <= time && time < times[i + 1] {
            return Some(KeyframeSpan::Between { start: i });
        }
        i += 1;
    }
    Some(KeyframeSpan::Fixed { index: n - 1 })
}

/// The rotation between two keyframes; see [`rotation_between`].
pub fn interpolate_rotation(start: Quat, end: Quat, num: u64, den: u64) -> (q: Quat)
    ensures
        q == rotation_between(start, end, num, den),
{
    let start = quat_normalize(start);
    let end = quat_normalize(end);
    let interpolated = if is_negative(quat_dot_bits(start, end)) {
        quat_slerp_at(quat_neg(start), end, num, den)
    } else {
        quat_slerp_at(start, end, num, den)
    };
    quat_normalize(interpolated)
}

impl AnimationTransforms {
    /// The number of keyframe values.
    pub fn len(&self) -> (n: usize)
        ensures
            n == self@.len(),
    {
        match self {
            AnimationTransforms::Translations(values) => values.len(),
            AnimationTransforms::Rotations(values) => values.len(),
            AnimationTransforms::Scales(values) => values.len(),
        }
    }
}

impl Channel {
    pub fn new(
        node_index: usize,
        keyframe_times: Vec<i64>,
        transforms: AnimationTransforms,
        interpolation_type: Interpolation,
    ) -> (channel: Channel)
        ensures
            channel.node == node_index,
            channel.keyframe_times == keyframe_times,
            channel.transforms == transforms,
            channel.interpolation_type == interpolation_type,
    {
        Channel { node: node_index, keyframe_times, transforms, interpolation_type }
    }

    /// The value of the keyframe `index`, as it is.
    pub fn get_fixed_transform(&self, index: usize) -> (value: Result<
        AnimationTransform,
        AnimationError,
    >)
        ensures
            value == self@.fixed(index as int),
    {
        match self.interpolation_type {
            Interpolation::Linear => {},
            Interpolation::Step => {
                return Err(AnimationError::UnsupportedInterpolation { mode: Interpolation::Step });
            },
            Interpolation::CubicSpline => {
                return Err(
                    AnimationError::UnsupportedInterpolation { mode: Interpolation::CubicSpline },
                );
            },
        }
        if index >= self.transforms.len() {
            return Err(AnimationError::MissingKeyframeValue);
        }
        match &self.transforms {
            AnimationTransforms::Translations(values) => Ok(
                AnimationTransform::Translation(values[index]),
            ),
            AnimationTransforms::Rotations(values) => Ok(
                AnimationTransform::Rotation(values[index]),
            ),
            AnimationTransforms::Scales(values) => Ok(AnimationTransform::Scale(values[index])),
        }
    }

    /// The value between the keyframes `start_index` and `start_index + 1` at the
    /// weight `num / den`.
    pub fn interpolate_transforms(&self, start_index: usize, num: u64, den: u64) -> (value: Result<
        AnimationTransform,
        AnimationError,
    >)
        ensures
            value == self@.interpolated(start_index as int, num, den),
    {
        match self.interpolation_type {
            Interpolation::Linear => {},
            Interpolation::Step => {
                return Err(AnimationError::UnsupportedInterpolation { mode: Interpolation::Step });
            },
            Interpolation::CubicSpline => {
                return Err(
                    AnimationError::UnsupportedInterpolation { mode: Interpolation::CubicSpline },
                );
            },
        }
        let n = self.transforms.len();
        if start_index >= n || n - start_index < 2 {
            return Err(AnimationError::MissingKeyframeValue);
        }
        match &self.transforms {
            AnimationTransforms::Translations(values) => {
                let start = values[start_index];
                let end = values[start_index + 1];
                Ok(AnimationTransform::Translation(vec3_lerp_at(start, end, num, den)))
            },
            AnimationTransforms::Rotations(values) => {
                let start = values[start_index];
                let end = values[start_index + 1];
                Ok(AnimationTransform::Rotation(interpolate_rotation(start, end, num, den)))
            },
            AnimationTransforms::Scales(values) => {
                let start = values[start_index];
                let end = values[start_index + 1];
                Ok(AnimationTransform::Scale(vec3_lerp_at(start, end, num, den)))
            },
        }
    }

    /// The value of the channel at `time`; none for a channel without keyframes.
    pub fn resolve(&self, time: i64) -> (value: Result<Option<AnimationTransform>, AnimationError>)
        ensures
            value == self@.at(time),
    {
        match locate(&self.keyframe_times, time) {
            None => Ok(None),
            Some(KeyframeSpan::Fixed { index }) => match self.get_fixed_transform(index) {
                Ok(value) => Ok(Some(value)),
                Err(e) => Err(e),
            },
            Some(KeyframeSpan::Between { start }) => {
                proof {
                    let times = self.keyframe_times@;
                    assert(0 < times.len() == self.keyframe_times.len() <= usize::MAX);
                    lemma_bracket(times, time, 0);
                }
                let from = self.keyframe_times[start];
                let to = self.keyframe_times[start + 1];
                let num = (time as i128 - from as i128) as u64;
                let den = (to as i128 - from as i128) as u64;
                match self.interpolate_transforms(start, num, den) {
                    Ok(value) => Ok(Some(value)),
                    Err(e) => Err(e),
                }
            },
        }
    }
}

/// What `bracket_from` returns lies at or after `from`, within the keyframes, and
/// encloses `time` unless it is the last keyframe; no pair before it encloses
/// `time`.
pub proof fn lemma_bracket(times: Seq<i64>, time: i64, from: nat)
    requires
        from < times.len(),
    ensures
        from <= bracket_from(times, time, from) < times.len(),
        bracket_from(times, time, from) + 1 < times.len() ==> times[bracket_from(
            times,
            time,
            from,
        ) as int] <= time < times[bracket_from(times, time, from) as int + 1],
        forall|k: int|
            from <= k < bracket_from(times, time, from) ==> !((#[trigger] times[k]) <= time
                < times[k + 1]),
    decreases times.len() - from,
{
    if from + 1 < times.len() && !(times[from as int] <= time < times[from as int + 1]) {
        lemma_bracket(times, time, from + 1);
    }
}

/// Before the first keyframe the first keyframe holds, whatever the times are.
pub proof fn lemma_span_before_first(times: Seq<i64>, time: i64)
    requires
        times.len() > 0,
        time < times[0],
    ensures
        span_of(times, time) == Some(KeyframeSpan::Fixed { index: 0 }),
{
}

/// From the last keyframe on, the last keyframe holds.
pub proof fn lemma_span_after_last(times: Seq<i64>, time: i64)
    requires
        times.len() > 0,
        ascending(times),
        times[times.len() - 1] <= time,
    ensures
        span_of(times, time) == Some(KeyframeSpan::Fixed { index: (times.len() - 1) as usize }),
{
    lemma_bracket(times, time, 0);
}

/// Between two neighbouring keyframes of ascending times, the span is the one that
/// begins at the first of the two: the index `i` with `times[i] <= time <
/// times[i + 1]` is unique, and the search finds it.
pub proof fn lemma_span_between(times: Seq<i64>, time: i64, i: int)
    requires
        ascending(times),
        0 <= i,
        i + 1 < times.len() <= usize::MAX,
        times[i] <= time < times[i + 1],
    ensures
        span_of(times, time) == Some(KeyframeSpan::Between { start: i as usize }),
{
    lemma_bracket(times, time, 0);
}

/// Outside the keyframes a linear channel does not extrapolate: before the first
/// keyframe it has the value of the first, from the last keyframe on that of the
/// last.
pub proof fn lemma_channel_holds_outside(channel: ChannelView, time: i64)
    requires
        channel.interpolation_type == Interpolation::Linear,
        ascending(channel.keyframe_times),
        0 < channel.keyframe_times.len() <= channel.transforms.len(),
        channel.keyframe_times.len() <= usize::MAX,
    ensures
        time < channel.keyframe_times[0] ==> channel.at(time) == Ok::<
            Option<AnimationTransform>,
            AnimationError,
        >(Some(channel.transforms.value(0))),
        channel.keyframe_times[channel.keyframe_times.len() - 1] <= time ==> channel.at(time)
            == Ok::<Option<AnimationTransform>, AnimationError>(
            Some(channel.transforms.value(channel.keyframe_times.len() - 1)),
        ),
{
    if time < channel.keyframe_times[0] {
        lemma_span_before_first(channel.keyframe_times, time);
    }
    if channel.keyframe_times[channel.keyframe_times.len() - 1] <= time {
        lemma_span_after_last(channel.keyframe_times, time);
    }
}

/// Between two neighbouring keyframes a linear channel interpolates from the first
/// to the second, at the share of the way that `time` has gone.
pub proof fn lemma_channel_interpolates(channel: ChannelView, time: i64, i: int)
    requires
        channel.interpolation_type == Interpolation::Linear,
        ascending(channel.keyframe_times),
        0 <= i,
        i + 1 < channel.keyframe_times.len() <= usize::MAX,
        i + 1 < channel.transforms.len(),
        channel.keyframe_times[i] <= time < channel.keyframe_times[i + 1],
    ensures
        channel.at(time) == Ok::<Option<AnimationTransform>, AnimationError>(
            Some(
                channel.transforms.between(
                    i,
                    (time - channel.keyframe_times[i]) as u64,
                    (channel.keyframe_times[i + 1] - channel.keyframe_times[i]) as u64,
                ),
            ),
        ),
{
    lemma_span_between(channel.keyframe_times, time, i);
}

/// Where the dot product of the two normalized keyframes is below zero, the
/// rotation between them is the normalized spherical interpolation from the
/// negated start to the end.
pub proof fn lemma_rotation_short_way(start: Quat, end: Quat, num: u64, den: u64)
    requires
        negative(quat_dot(quat_normalized(start), quat_normalized(end))),
    ensures
        rotation_between(start, end, num, den) == quat_normalized(
            quat_slerp(quat_negated(quat_normalized(start)), quat_normalized(end), num, den),
        ),
{
}

/// A linear channel of rotations, sampled between two neighbouring keyframes whose
/// normalized dot product is below zero, takes the short way round.
pub proof fn lemma_channel_short_way(channel: ChannelView, rotations: Seq<Quat>, time: i64, i: int)
    requires
        channel.interpolation_type == Interpolation::Linear,
        channel.transforms == TransformsView::Rotations(rotations),
        ascending(channel.keyframe_times),
        0 <= i,
        i + 1 < channel.keyframe_times.len() <= usize::MAX,
        i + 1 < rotations.len(),
        channel.keyframe_times[i] <= time < channel.keyframe_times[i + 1],
        negative(quat_dot(quat_normalized(rotations[i]), quat_normalized(rotations[i + 1]))),
    ensures
        channel.at(time) == Ok::<Option<AnimationTransform>, AnimationError>(
            Some(
                AnimationTransform::Rotation(
                    quat_normalized(
                        quat_slerp(
                            quat_negated(quat_normalized(rotations[i])),
                            quat_normalized(rotations[i + 1]),
                            (time - channel.keyframe_times[i]) as u64,
                            (channel.keyframe_times[i + 1] - channel.keyframe_times[i]) as u64,
                        ),
                    ),
                ),
            ),
        ),
{
    lemma_span_between(channel.keyframe_times, time, i);
}

} // verus!
