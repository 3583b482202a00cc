//! Playback control: which clip is shown, and how its time advances.
//!
//! The clock is the caller's. Every function that needs the time takes a reading
//! of it, in nanoseconds.

use vstd::prelude::*;

use crate::clip::{pose_of, Animation, AnimationView, NodeAnimationTransform};
use crate::error::AnimationError;
use crate::joints::Joint;
use crate::transform::Transform;

verus! {

/// How the animation of a model is driven.
#[derive(Clone, Copy, PartialEq, Eq, Structural, Debug)]
pub enum AnimationControl {
    /// The clip plays in a loop that began when the clock read `start_time`.
    Loop { active_animation: usize, start_time: i64 },
    /// The clip stands at the time that the caller last set.
    Controllable { active_animation: usize },
    /// No clip is applied; the joints keep their authored transforms.
    Static,
}

/// The clips of a model and what drives them.
#[derive(Debug, PartialEq)]
pub struct Animations {
    pub animations: Vec<Animation>,
    pub animation_control: AnimationControl,
}

/// The views of a sequence of clips.
pub open spec fn animation_views(animations: Seq<Animation>) -> Seq<AnimationView> {
    Seq::new(animations.len(), |i: int| animations[i]@)
}

/// The time that has passed on the clock between the readings `start` and `now`;
/// none if the clock went backwards.
pub open spec fn elapsed(now: i64, start: i64) -> int {
    if now >= start {
        now - start
    } else {
        0
    }
}

/// The time within a clip of the length `end` after `elapsed` nanoseconds of
/// looping: `elapsed` itself up to the end of the clip, and past it what is left
/// over after whole rounds. A clip without length stays at 0.
pub open spec fn wrapped(elapsed: int, end: i64) -> int {
    if elapsed <= end {
        elapsed
    } else if end > 0 {
        elapsed % (end as int)
    } else {
        0
    }
}

/// The time at which a looping clip of the length `end` stands when the clock
/// reads `now`, if the loop began at `start`.
pub fn loop_time(now: i64, start: i64, end: i64) -> (time: i64)
    ensures
        time == wrapped(elapsed(now, start), end),
        end >= 0 ==> 0 <= time <= end,
{
    if now < start {
        return 0;
    }
    let passed: i128 = now as i128 - start as i128;
    if passed <= end as i128 {
        passed as i64
    } else if end > 0 {
        (passed % (end as i128)) as i64
    } else {
        0
    }
}

impl AnimationControl {
    /// The clip that is shown, if any.
    pub open spec fn active(self) -> Option<usize> {
        match self {
            AnimationControl::Loop { active_animation, .. } => Some(active_animation),
            AnimationControl::Controllable { active_animation } => Some(active_animation),
            AnimationControl::Static => None,
        }
    }

    /// The control after the play switch was used on the clip `clip` when the
    /// clock read `now`: a loop of `clip` begins, unless a loop was playing; then
    /// that loop stops and its clip stays on display.
    pub open spec fn toggled(self, clip: usize, now: i64) -> AnimationControl {
        match self {
            AnimationControl::Loop { active_animation, .. } => AnimationControl::Controllable {
                active_animation,
            },
            _ => AnimationControl::Loop { active_animation: clip, start_time: now },
        }
    }

    /// The clip that is shown, if any.
    pub fn active_animation(&self) -> (clip: Option<usize>)
        ensures
            clip == self.active(),
    {
        match self {
            AnimationControl::Loop { active_animation, .. } => Some(*active_animation),
            AnimationControl::Controllable { active_animation } => Some(*active_animation),
            AnimationControl::Static => None,
        }
    }

    /// Uses the play switch on the clip `clip` at the clock reading `now`.
    pub fn toggle_play(&mut self, clip: usize, now: i64)
        ensures
            *final(self) == old(self).toggled(clip, now),
    {
        let next = match self {
            AnimationControl::Loop { active_animation, .. } => AnimationControl::Controllable {
                active_animation: *active_animation,
            },
            _ => AnimationControl::Loop { active_animation: clip, start_time: now },
        };
        *self = next;
    }

    /// Hands the time of the clip `clip` to the caller, whatever was playing.
    pub fn scrub(&mut self, clip: usize)
        ensures
            *final(self) == (AnimationControl::Controllable { active_animation: clip }),
    {
        *self = AnimationControl::Controllable { active_animation: clip };
    }

    /// Stops all animation.
    pub fn freeze(&mut self)
        ensures
            *final(self) == AnimationControl::Static,
    {
        *self = AnimationControl::Static;
    }
}

/// The play switch starts a loop of the chosen clip at the clock reading when
/// nothing loops, and used again it stops the loop and leaves that clip on display.
pub proof fn lemma_play_toggles(
    control: AnimationControl,
    clip: usize,
    now: i64,
    other: usize,
    later: i64,
)
    requires
        !(control is Loop),
    ensures
        control.toggled(clip, now) == (AnimationControl::Loop {
            active_animation: clip,
            start_time: now,
        }),
        control.toggled(clip, now).toggled(other, later) == (AnimationControl::Controllable {
            active_animation: clip,
        }),
{
}

/// A looping clip with a length stands within its length, and past its end it
/// stands where the time that has passed leaves it after whole rounds.
pub proof fn lemma_wraparound(now: i64, start: i64, end: i64)
    requires
        end > 0,
        now >= start,
    ensures
        0 <= wrapped(elapsed(now, start), end) <= end,
        now - start > end ==> wrapped(elapsed(now, start), end) == (now - start) % (end as int),
        now - start <= end ==> wrapped(elapsed(now, start), end) == now - start,
{
}

impl Animations {
    /// The clips after the frame at the clock reading `now`: a looping clip has
    /// moved on, everything else is as it was.
    pub open spec fn advanced(self, now: i64) -> Seq<AnimationView> {
        match self.animation_control {
            AnimationControl::Loop { active_animation, start_time } => if active_animation
                < self.animations@.len() {
                let clip = self.animations@[active_animation as int]@;
                animation_views(self.animations@).update(
                    active_animation as int,
                    AnimationView {
                        current_time: wrapped(elapsed(now, start_time), clip.end_time) as i64,
                        ..clip
                    },
                )
            } else {
                animation_views(self.animations@)
            },
            _ => animation_views(self.animations@),
        }
    }

    /// The pose of the frame at the clock reading `now`: that of the clip on
    /// display at the time at which it then stands; empty where nothing is
    /// displayed.
    pub open spec fn frame_pose(self, now: i64) -> Result<
        Seq<NodeAnimationTransform>,
        AnimationError,
    > {
        match self.animation_control.active() {
            None => Ok(Seq::empty()),
            Some(active) => if active < self.animations@.len() {
                let clip = self.advanced(now)[active as int];
                pose_of(clip.channels, clip.current_time, clip.channels.len())
            } else {
                Err(AnimationError::UnknownAnimation)
            },
        }
    }

    /// Uses the play switch on the clip `clip` at the clock reading `now`.
    pub fn toggle_play(&mut self, clip: usize, now: i64)
        ensures
            final(self).animation_control == old(self).animation_control.toggled(clip, now),
            final(self).animations == old(self).animations,
    {
        self.animation_control.toggle_play(clip, now);
    }

    /// Sets the clip `clip` to `time` and puts it on display, standing still.
    /// Fails, and changes nothing, where the model has no such clip.
    pub fn scrub(&mut self, clip: usize, time: i64) -> (done: Result<(), AnimationError>)
        ensures
            match done {
                Ok(_) => {
                    &&& clip < old(self).animations@.len()
                    &&& final(self).animation_control == (AnimationControl::Controllable {
                        active_animation: clip,
                    })
                    &&& animation_views(final(self).animations@) == animation_views(
                        old(self).animations@,
                    ).update(
                        clip as int,
                        AnimationView { current_time: time, ..old(self).animations@[clip as int]@ },
                    )
                },
                Err(e) => {
                    &&& clip >= old(self).animations@.len()
                    &&& e == AnimationError::UnknownAnimation
                    &&& *final(self) == *old(self)
                },
            },
    {
        if clip >= self.animations.len() {
            return Err(AnimationError::UnknownAnimation);
        }
        self.animations[clip].current_time = time;
        self.animation_control.scrub(clip);
        Ok(())
    }

    /// The time at which the clip `clip` stands; none where the model has no such
    /// clip.
    pub fn current_time(&self, clip: usize) -> (time: Option<i64>)
        ensures
            time == if clip < self.animations@.len() {
                Some(self.animations@[clip as int].current_time)
            } else {
                None
            },
    {
        if clip < self.animations.len() {
            Some(self.animations[clip].current_time)
        } else {
            None
        }
    }

    /// Overwrites the authored transform of a joint. All animation stops first, so
    /// that no clip writes over the new value.
    pub fn edit_joint(&mut self, joint: &mut Joint, transform: Transform)
        ensures
            final(self).animation_control == AnimationControl::Static,
            final(self).animations == old(self).animations,
            final(joint).transform == transform,
            final(joint).node_index == old(joint).node_index,
            final(joint).parent == old(joint).parent,
            final(joint).inverse_bind_matrix == old(joint).inverse_bind_matrix,
            final(joint).name == old(joint).name,
    {
        self.animation_control.freeze();
        joint.transform = transform;
    }

    /// Moves a looping clip on to the clock reading `now` and gives the pose of the
    /// clip on display. Fails where the control names a clip that the model does
    /// not have, or where a channel of the clip cannot be sampled.
    pub fn recalculate_animation(&mut self, now: i64) -> (pose: Result<
        Vec<NodeAnimationTransform>,
        AnimationError,
    >)
        ensures
            final(self).animation_control == old(self).animation_control,
            animation_views(final(self).animations@) == old(self).advanced(now),
            match pose {
                Ok(pose) => old(self).frame_pose(now) == Ok::<
                    Seq<NodeAnimationTransform>,
                    AnimationError,
                >(pose@),
                Err(e) => old(self).frame_pose(now) == Err::<
                    Seq<NodeAnimationTransform>,
                    AnimationError,
                >(e),
            },
    {
        let active = match self.animation_control {
            AnimationControl::Loop { active_animation, start_time } => {
                if active_animation >= self.animations.len() {
                    return Err(AnimationError::UnknownAnimation);
                }
                let end = self.animations[active_animation].end_time;
                self.animations[active_animation].current_time = loop_time(now, start_time, end);
                active_animation
            },
            AnimationControl::Controllable { active_animation } => {
                if active_animation >= self.animations.len() {
                    return Err(AnimationError::UnknownAnimation);
                }
                active_animation
            },
            AnimationControl::Static => {
                return Ok(Vec::new());
            },
        };
        self.animations[active].resolve()
    }
}

} // verus!
