//! The animations of an asset as plain data, and how clips are made from them.
//!
//! Rotations may come as normalized integers. A signed component `c` of a width
//! with the greatest value `m` stands for `max(c / m, -1)`, an unsigned one for
//! `c / m`. The signed rule is applied as `max(c, -m) / m`, which is the same
//! number: the clamp is taken before the one division.

use glam::{Quat, Vec3};
use vstd::prelude::*;

use crate::animation::{AnimationTransforms, Channel, ChannelView, TransformsView};
use crate::clip::{
    channel_views, end_time, end_time_of, name_view, Animation, AnimationView, INITIAL_TIME,
};
use crate::error::{AnimationError, Interpolation};
use crate::linalg::{quat_from_fractions, quat_of_fractions};
use crate::playback::{animation_views, AnimationControl, Animations};
use crate::util::copy_of;

verus! {

/// Rotation keyframes in the encoding of the asset.
#[derive(Debug, PartialEq)]
pub enum EncodedRotations {
    I8(Vec<[i8; 4]>),
    U8(Vec<[u8; 4]>),
    I16(Vec<[i16; 4]>),
    U16(Vec<[u16; 4]>),
    F32(Vec<Quat>),
}

/// The keyframe values of a channel of the asset.
#[derive(Debug, PartialEq)]
pub enum ChannelOutputs {
    Translations(Vec<Vec3>),
    Rotations(EncodedRotations),
    Scales(Vec<Vec3>),
    MorphTargetWeights,
}

/// A channel as the asset declares it.
#[derive(Debug, PartialEq)]
pub struct ChannelSource {
    /// Index of the node that the channel animates.
    pub node: usize,
    /// Times of the keyframes in nanoseconds, where the asset has them.
    pub keyframe_times: Option<Vec<i64>>,
    /// Values of the keyframes, where the asset has them.
    pub outputs: Option<ChannelOutputs>,
    pub interpolation: Interpolation,
}

/// An animation as the asset declares it.
#[derive(Debug, PartialEq)]
pub struct AnimationSource {
    pub name: Option<String>,
    pub channels: Vec<ChannelSource>,
}

/// The numerator of a signed component: `c`, but no less than `-limit`.
pub open spec fn clamped(c: int, limit: int) -> int {
    if c < -limit {
        -limit
    } else {
        c
    }
}

/// The rotation that four signed bytes stand for.
pub open spec fn decoded_i8(c: [i8; 4]) -> Quat {
    quat_of_fractions(
        clamped(c[0] as int, 127) as i32,
        clamped(c[1] as int, 127) as i32,
        clamped(c[2] as int, 127) as i32,
        clamped(c[3] as int, 127) as i32,
        127,
    )
}

/// The rotation that four unsigned bytes stand for.
pub open spec fn decoded_u8(c: [u8; 4]) -> Quat {
    quat_of_fractions(c[0] as i32, c[1] as i32, c[2] as i32, c[3] as i32, 255)
}

/// The rotation that four signed 16-bit integers stand for.
pub open spec fn decoded_i16(c: [i16; 4]) -> Quat {
    quat_of_fractions(
        clamped(c[0] as int, 32767) as i32,
        clamped(c[1] as int, 32767) as i32,
        clamped(c[2] as int, 32767) as i32,
        clamped(c[3] as int, 32767) as i32,
        32767,
    )
}

/// The rotation that four unsigned 16-bit integers stand for.
pub open spec fn decoded_u16(c: [u16; 4]) -> Quat {
    quat_of_fractions(c[0] as i32, c[1] as i32, c[2] as i32, c[3] as i32, 65535)
}

impl EncodedRotations {
    /// The rotations that the encoded keyframes stand for. They are not
    /// normalized.
    pub open spec fn decoded(self) -> Seq<Quat> {
        match self {
            EncodedRotations::I8(r) => Seq::new(r@.len(), |i: int| decoded_i8(r@[i])),
            EncodedRotations::U8(r) => Seq::new(r@.len(), |i: int| decoded_u8(r@[i])),
            EncodedRotations::I16(r) => Seq::new(r@.len(), |i: int| decoded_i16(r@[i])),
            EncodedRotations::U16(r) => Seq::new(r@.len(), |i: int| decoded_u16(r@[i])),
            EncodedRotations::F32(r) => r@,
        }
    }
}

impl ChannelOutputs {
    /// The keyframe values, decoded. Morph target weights have none.
    pub open spec fn transforms(self) -> TransformsView {
        match self {
            ChannelOutputs::Translations(v) => TransformsView::Translations(v@),
            ChannelOutputs::Rotations(r) => TransformsView::Rotations(r.decoded()),
            ChannelOutputs::Scales(v) => TransformsView::Scales(v@),
            ChannelOutputs::MorphTargetWeights => TransformsView::Translations(Seq::empty()),
        }
    }
}

impl ChannelSource {
    /// What keeps the channel from being read, if anything: missing times, then
    /// missing values, then values of a kind that is not supported.
    pub open spec fn fault(self) -> Option<AnimationError> {
        if self.keyframe_times.is_none() {
            Some(AnimationError::MissingKeyframeTimes)
        } else if self.outputs.is_none() {
            Some(AnimationError::MissingTransforms)
        } else if self.outputs == Some(ChannelOutputs::MorphTargetWeights) {
            Some(AnimationError::UnsupportedMorphTargets)
        } else {
            None
        }
    }

    /// The channel that a source without fault gives.
    pub open spec fn channel(self) -> ChannelView {
        ChannelView {
            node: self.node,
            keyframe_times: self.keyframe_times->0@,
            transforms: self.outputs->0.transforms(),
            interpolation_type: self.interpolation,
        }
    }
}

/// The fault of the first of the first `n` channels that has one.
pub open spec fn first_fault(channels: Seq<ChannelSource>, n: nat) -> Option<AnimationError>
    decreases n,
{
    if n == 0 {
        None
    } else {
        match first_fault(channels, (n - 1) as nat) {
            Some(e) => Some(e),
            None => channels[n - 1].fault(),
        }
    }
}

/// The channels that sources without fault give.
pub open spec fn channels_of(sources: Seq<ChannelSource>) -> Seq<ChannelView> {
    Seq::new(sources.len(), |i: int| sources[i].channel())
}

impl AnimationSource {
    /// What keeps the animation from being read, if anything: the fault of its
    /// first channel that has one.
    pub open spec fn fault(self) -> Option<AnimationError> {
        first_fault(self.channels@, self.channels@.len())
    }

    /// The clip that a source without fault gives. It stands at the initial time,
    /// and its length is the latest keyframe time of its channels.
    pub open spec fn animation(self) -> AnimationView {
        AnimationView {
            channels: channels_of(self.channels@),
            current_time: INITIAL_TIME,
            end_time: end_time_of(channels_of(self.channels@)),
            name: name_view(self.name),
        }
    }
}

/// The fault of the first of the first `n` animations that has one.
pub open spec fn first_animation_fault(sources: Seq<AnimationSource>, n: nat) -> Option<
    AnimationError,
>
    decreases n,
{
    if n == 0 {
        None
    } else {
        match first_animation_fault(sources, (n - 1) as nat) {
            Some(e) => Some(e),
            None => sources[n - 1].fault(),
        }
    }
}

/// The clips that sources without fault give.
pub open spec fn animations_of(sources: Seq<AnimationSource>) -> Seq<AnimationView> {
    Seq::new(sources.len(), |i: int| sources[i].animation())
}

/// A fault among the first channels is a fault of the whole list.
pub proof fn lemma_fault_stays(channels: Seq<ChannelSource>, n: nat, m: nat)
    requires
        n <= m,
        first_fault(channels, n).is_some(),
    ensures
        first_fault(channels, m) == first_fault(channels, n),
    decreases m - n,
{
    if n < m {
        lemma_fault_stays(channels, n, (m - 1) as nat);
    }
}

/// A fault among the first animations is a fault of the whole list.
pub proof fn lemma_animation_fault_stays(sources: Seq<AnimationSource>, n: nat, m: nat)
    requires
        n <= m,
        first_animation_fault(sources, n).is_some(),
    ensures
        first_animation_fault(sources, m) == first_animation_fault(sources, n),
    decreases m - n,
{
    if n < m {
        lemma_animation_fault_stays(sources, n, (m - 1) as nat);
    }
}

fn clamp_i8(c: i8) -> (n: i32)
    ensures
        n == clamped(c as int, 127),
{
    if c < -127 {
        -127
    } else {
        c as i32
    }
}

fn clamp_i16(c: i16) -> (n: i32)
    ensures
        n == clamped(c as int, 32767),
{
    if c < -32767 {
        -32767
    } else {
        c as i32
    }
}

impl Animation {
    /// Decodes rotation keyframes. The rotations are stored as they decode, not
    /// normalized.
    pub fn decode_rotations(rotations: &EncodedRotations) -> (transforms: AnimationTransforms)
        ensures
            transforms@ == TransformsView::Rotations(rotations.decoded()),
    {
        let mut data: Vec<Quat> = Vec::new();
        match rotations {
            EncodedRotations::I8(r) => {
                let mut i: usize = 0;
                while i < r.len()
                    invariant
                        i <= r.len(),
                        data@ == Seq::new(i as nat, |k: int| decoded_i8(r@[k])),
                    decreases r.len() - i,
                {
                    let c = r[i];
                    let q = quat_from_fractions(
                        clamp_i8(c[0]),
                        clamp_i8(c[1]),
                        clamp_i8(c[2]),
                        clamp_i8(c[3]),
                        127,
                    );
                    data.push(q);
                    i += 1;
                }
            },
            EncodedRotations::U8(r) => {
                let mut i: usize = 0;
                while i < r.len()
                    invariant
                        i <= r.len(),
                        data@ == Seq::new(i as nat, |k: int| decoded_u8(r@[k])),
                    decreases r.len() - i,
                {
                    let c = r[i];
                    let q = quat_from_fractions(
                        c[0] as i32,
                        c[1] as i32,
                        c[2] as i32,
                        c[3] as i32,
                        255,
                    );
                    data.push(q);
                    i += 1;
                }
            },
            EncodedRotations::I16(r) => {
                let mut i: usize = 0;
                while i < r.len()
                    invariant
                        i <= r.len(),
                        data@ == Seq::new(i as nat, |k: int| decoded_i16(r@[k])),
                    decreases r.len() - i,
                {
                    let c = r[i];
                    let q = quat_from_fractions(
                        clamp_i16(c[0]),
                        clamp_i16(c[1]),
                        clamp_i16(c[2]),
                        clamp_i16(c[3]),
                        32767,
                    );
                    data.push(q);
                    i += 1;
                }
            },
            EncodedRotations::U16(r) => {
                let mut i: usize = 0;
                while i < r.len()
                    invariant
                        i <= r.len(),
                        data@ == Seq::new(i as nat, |k: int| decoded_u16(r@[k])),
                    decreases r.len() - i,
                {
                    let c = r[i];
                    let q = quat_from_fractions(
                        c[0] as i32,
                        c[1] as i32,
                        c[2] as i32,
                        c[3] as i32,
                        65535,
                    );
                    data.push(q);
                    i += 1;
                }
            },
            EncodedRotations::F32(r) => {
                data = copy_of(r);
            },
        }
        AnimationTransforms::Rotations(data)
    }

    /// Makes the channel of a clip from a channel of the asset.
    pub fn channel_from(source: &ChannelSource) -> (made: Result<Channel, AnimationError>)
        ensures
            match made {
                Ok(channel) => source.fault().is_none() && channel@ == source.channel(),
                Err(e) => source.fault() == Some(e),
            },
    {
        let keyframe_times = match &source.keyframe_times {
            Some(times) => copy_of(times),
            None => {
                return Err(AnimationError::MissingKeyframeTimes);
            },
        };
        let transforms = match &source.outputs {
            None => {
                return Err(AnimationError::MissingTransforms);
            },
            Some(ChannelOutputs::Translations(v)) => AnimationTransforms::Translations(copy_of(v)),
            Some(ChannelOutputs::Scales(v)) => AnimationTransforms::Scales(copy_of(v)),
            Some(ChannelOutputs::Rotations(r)) => Self::decode_rotations(r),
            Some(ChannelOutputs::MorphTargetWeights) => {
                return Err(AnimationError::UnsupportedMorphTargets);
            },
        };
        Ok(Channel::new(source.node, keyframe_times, transforms, source.interpolation))
    }

    /// Makes a clip from an animation of the asset.
    pub fn clip_from(source: &AnimationSource) -> (made: Result<Animation, AnimationError>)
        ensures
            match made {
                Ok(animation) => source.fault().is_none() && animation@ == source.animation(),
                Err(e) => source.fault() == Some(e),
            },
    {
        let mut channels: Vec<Channel> = Vec::new();
        let mut i: usize = 0;
        while i < source.channels.len()
            invariant
                i <= source.channels.len(),
                first_fault(source.channels@, i as nat).is_none(),
                channels.len() == i,
                channel_views(channels@) == channels_of(source.channels@).take(i as int),
            decreases source.channels.len() - i,
        {
            match Self::channel_from(&source.channels[i]) {
                Ok(channel) => {
                    channels.push(channel);
                },
                Err(e) => {
                    proof {
                        lemma_fault_stays(
                            source.channels@,
                            (i + 1) as nat,
                            source.channels@.len(),
                        );
                    }
                    return Err(e);
                },
            }
            i += 1;
        }
        assert(channel_views(channels@) =~= channels_of(source.channels@));
        let name = match &source.name {
            Some(name) => Some(name.clone()),
            None => None,
        };
        let end = end_time(&channels);
        Ok(Animation::new(channels, INITIAL_TIME, end, name))
    }

    /// Makes the clips of a model from the animations of the asset. Nothing plays
    /// at first.
    pub fn from_gltf(sources: &Vec<AnimationSource>) -> (made: Result<Animations, AnimationError>)
        ensures
            match made {
                Ok(all) => first_animation_fault(sources@, sources@.len()).is_none()
                    && animation_views(all.animations@) == animations_of(sources@)
                    && all.animation_control == AnimationControl::Static,
                Err(e) => first_animation_fault(sources@, sources@.len()) == Some(e),
            },
    {
        let mut animations: Vec<Animation> = Vec::new();
        let mut i: usize = 0;
        while i < sources.len()
            invariant
                i <= sources.len(),
                first_animation_fault(sources@, i as nat).is_none(),
                animations.len() == i,
                animation_views(animations@) == animations_of(sources@).take(i as int),
            decreases sources.len() - i,
        {
            match Self::clip_from(&sources[i]) {
                Ok(animation) => {
                    animations.push(animation);
                },
                Err(e) => {
                    proof {
                        lemma_animation_fault_stays(sources@, (i + 1) as nat, sources@.len());
                    }
                    return Err(e);
                },
            }
            i += 1;
        }
        Ok(Animations { animations, animation_control: AnimationControl::Static })
    }
}

} // verus!
