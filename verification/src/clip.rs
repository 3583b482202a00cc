//! Animation clips: the channels of one animation, its length, and the pose it
//! gives at its current time.

use vstd::prelude::*;

use crate::animation::{AnimationTransform, Channel, ChannelView};
use crate::error::AnimationError;

verus! {

/// The time at which a clip stands when it is loaded, in nanoseconds: a tenth of a
/// second, just past its start.
pub const INITIAL_TIME: i64 = 100_000_000;

/// One animation of a model.
#[derive(Debug, PartialEq)]
pub struct Animation {
    pub channels: Vec<Channel>,
    /// The time at which the clip stands, in nanoseconds.
    pub current_time: i64,
    /// The time of the last keyframe, in nanoseconds. The clip starts at 0.
    pub end_time: i64,
    pub name: Option<String>,
}

/// What a clip holds, as sequences.
pub struct AnimationView {
    pub channels: Seq<ChannelView>,
    pub current_time: i64,
    pub end_time: i64,
    pub name: Option<Seq<char>>,
}

/// The views of a sequence of channels.
pub open spec fn channel_views(channels: Seq<Channel>) -> Seq<ChannelView> {
    Seq::new(channels.len(), |i: int| channels[i]@)
}

/// The view of an optional name.
pub open spec fn name_view(name: Option<String>) -> Option<Seq<char>> {
    match name {
        Some(name) => Some(name@),
        None => None,
    }
}

impl View for Animation {
    type V = AnimationView;

    open spec fn view(&self) -> AnimationView {
        AnimationView {
            channels: channel_views(self.channels@),
            current_time: self.current_time,
            end_time: self.end_time,
            name: name_view(self.name),
        }
    }
}

/// The transform that overwrites one component of the local transform of a node
/// for the current frame.
#[derive(Clone, Copy, Debug, PartialEq)]
pub struct NodeAnimationTransform {
    /// Index of the node.
    pub node: usize,
    /// The value that overwrites the current one.
    pub transform: AnimationTransform,
}

impl NodeAnimationTransform {
    pub fn new(node: usize, transform: AnimationTransform) -> (t: NodeAnimationTransform)
        ensures
            t.node == node,
            t.transform == transform,
    {
        NodeAnimationTransform { node, transform }
    }
}

/// The time of the last keyframe of a channel; 0 for a channel without keyframes.
pub open spec fn last_time(times: Seq<i64>) -> i64 {
    if times.len() == 0 {
        0
    } else {
        times[times.len() - 1]
    }
}

/// The latest of the last keyframe times of the first `n` channels, and at least 0.
pub open spec fn latest(channels: Seq<ChannelView>, n: nat) -> i64
    decreases n,
{
    if n == 0 {
        0
    } else {
        let before = latest(channels, (n - 1) as nat);
        let last = last_time(channels[n - 1].keyframe_times);
        if last > before {
            last
        } else {
            before
        }
    }
}

/// The length of a clip with the channels `channels`.
pub open spec fn end_time_of(channels: Seq<ChannelView>) -> i64 {
    latest(channels, channels.len())
}

/// The pose that the first `n` channels give at `time`: for each channel with
/// keyframes, in order, its node and its value. The first channel that cannot be
/// sampled decides the error.
pub open spec fn pose_of(channels: Seq<ChannelView>, time: i64, n: nat) -> Result<
    Seq<NodeAnimationTransform>,
    AnimationError,
>
    decreases n,
{
    if n == 0 {
        Ok(Seq::empty())
    } else {
        match pose_of(channels, time, (n - 1) as nat) {
            Err(e) => Err(e),
            Ok(pose) => match channels[n - 1].at(time) {
                Err(e) => Err(e),
                Ok(None) => Ok(pose),
                Ok(Some(transform)) => Ok(
                    pose.push(NodeAnimationTransform { node: channels[n - 1].node, transform }),
                ),
            },
        }
    }
}

/// The length of a clip is no less than 0 and no less than the last keyframe time
/// of any of its channels, and it is 0 or one of those times.
pub proof fn lemma_latest(channels: Seq<ChannelView>, n: nat)
    requires
        n <= channels.len(),
    ensures
        latest(channels, n) >= 0,
        forall|i: int|
            0 <= i < n ==> last_time((#[trigger] channels[i]).keyframe_times) <= latest(
                channels,
                n,
            ),
        latest(channels, n) == 0 || exists|i: int|
            0 <= i < n && latest(channels, n) == last_time((#[trigger] channels[i]).keyframe_times),
    decreases n,
{
    if n > 0 {
        lemma_latest(channels, (n - 1) as nat);
    }
}

/// Once a channel cannot be sampled, the error stands however many channels follow.
pub proof fn lemma_pose_error_stays(channels: Seq<ChannelView>, time: i64, n: nat, m: nat)
    requires
        n <= m,
        pose_of(channels, time, n).is_err(),
    ensures
        pose_of(channels, time, m) == pose_of(channels, time, n),
    decreases m - n,
{
    if n < m {
        lemma_pose_error_stays(channels, time, n, (m - 1) as nat);
    }
}

/// Computes the length of a clip from its channels.
pub fn end_time(channels: &Vec<Channel>) -> (end: i64)
    ensures
        end == end_time_of(channel_views(channels@)),
{
    let mut end: i64 = 0;
    let mut i: usize = 0;
    while i < channels.len()
        invariant
            i <= channels.len(),
            end == latest(channel_views(channels@), i as nat),
        decreases channels.len() - i,
    {
        let times = &channels[i].keyframe_times;
        let last = if times.len() == 0 {
            0
        } else {
            times[times.len() - 1]
        };
        if last > end {
            end = last;
        }
        i += 1;
    }
    end
}

impl Animation {
    pub fn new(channels: Vec<Channel>, current_time: i64, end_time: i64, name: Option<String>) -> (a:
        Animation)
        ensures
            a.channels == channels,
            a.current_time == current_time,
            a.end_time == end_time,
            a.name == name,
    {
        Animation { channels, current_time, end_time, name }
    }

    /// The pose of the clip at its current time: one entry for each channel that
    /// has keyframes, in the order of the channels.
    pub fn resolve(&self) -> (pose: Result<Vec<NodeAnimationTransform>, AnimationError>)
        ensures
            match pose {
                Ok(pose) => pose_of(self@.channels, self.current_time, self.channels@.len()) == Ok::<
                    Seq<NodeAnimationTransform>,
                    AnimationError,
                >(pose@),
                Err(e) => pose_of(self@.channels, self.current_time, self.channels@.len()) == Err::<
                    Seq<NodeAnimationTransform>,
                    AnimationError,
                >(e),
            },
    {
        let mut pose: Vec<NodeAnimationTransform> = Vec::new();
        let mut i: usize = 0;
        while i < self.channels.len()
            invariant
                i <= self.channels.len(),
                pose_of(self@.channels, self.current_time, i as nat) == Ok::<
                    Seq<NodeAnimationTransform>,
                    AnimationError,
                >(pose@),
            decreases self.channels.len() - i,
        {
            let channel = &self.channels[i];
            match channel.resolve(self.current_time) {
                Err(e) => {
                    proof {
                        lemma_pose_error_stays(
                            self@.channels,
                            self.current_time,
                            (i + 1) as nat,
                            self.channels@.len(),
                        );
                    }
                    return Err(e);
                },
                Ok(None) => {},
                Ok(Some(transform)) => {
                    pose.push(NodeAnimationTransform::new(channel.node, transform));
                },
            }
            i += 1;
        }
        Ok(pose)
    }
}

} // verus!
