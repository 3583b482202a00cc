use glam::{Mat4, Quat, Vec3};
use skeletal::animation::{AnimationTransform, AnimationTransforms, Channel};
use skeletal::clip::{Animation, NodeAnimationTransform};
use skeletal::error::{AnimationError, Interpolation};
use skeletal::joints::Joint;
use skeletal::playback::{loop_time, AnimationControl, Animations};
use skeletal::skinning::Renderer;
use skeletal::transform::Transform;

const SECOND: i64 = 1_000_000_000;

fn clip(end: i64) -> Animation {
    let channel = Channel::new(
        7,
        vec![0, end],
        AnimationTransforms::Translations(vec![Vec3::ZERO, Vec3::new(end as f32, 0.0, 0.0)]),
        Interpolation::Linear,
    );
    Animation::new(vec![channel], 0, end, None)
}

fn two_clips(control: AnimationControl) -> Animations {
    Animations { animations: vec![clip(2 * SECOND), clip(4)], animation_control: control }
}

#[test]
fn looping_wraparound() {
    let now = 123 * SECOND;
    let mut all = two_clips(AnimationControl::Loop {
        active_animation: 0,
        start_time: now - 5 * SECOND,
    });
    let pose = all.recalculate_animation(now).unwrap();
    assert_eq!(all.animations[0].current_time, SECOND);
    assert_eq!(all.animations[1].current_time, 0);
    assert_eq!(pose.len(), 1);
    assert_eq!(pose[0].node, 7);
    match pose[0].transform {
        AnimationTransform::Translation(v) => {
            assert!((v.x - SECOND as f32).abs() < 1.0);
        },
        other => panic!("{:?}", other),
    }
}

#[test]
fn loop_time_wraps_past_the_end_only() {
    assert_eq!(loop_time(5 * SECOND, 0, 2 * SECOND), SECOND);
    assert_eq!(loop_time(SECOND, 0, 2 * SECOND), SECOND);
    assert_eq!(loop_time(2 * SECOND, 0, 2 * SECOND), 2 * SECOND);
    assert_eq!(loop_time(2 * SECOND + 1, 0, 2 * SECOND), 1);
    assert_eq!(loop_time(4 * SECOND, 0, 2 * SECOND), 0);
    assert_eq!(loop_time(17, 10, 5), 2);
    assert_eq!(loop_time(10, 10, 5), 0);
    // A clock that went backwards counts as no time passed.
    assert_eq!(loop_time(3, 10, 5), 0);
    // A clip without length stays at its start.
    assert_eq!(loop_time(17, 10, 0), 0);
    assert_eq!(loop_time(10, 10, 0), 0);
    // The whole range of the clock.
    assert_eq!(loop_time(i64::MAX, i64::MIN, i64::MAX), 1);
    assert_eq!(loop_time(i64::MAX, i64::MIN, 10), 5);
    assert_eq!(loop_time(i64::MAX, 0, i64::MAX), i64::MAX);
}

#[test]
fn play_toggles_between_loop_and_standstill() {
    let mut control = AnimationControl::Static;
    assert_eq!(control.active_animation(), None);
    control.toggle_play(1, 50);
    assert_eq!(control, AnimationControl::Loop { active_animation: 1, start_time: 50 });
    assert_eq!(control.active_animation(), Some(1));
    control.toggle_play(0, 60);
    assert_eq!(control, AnimationControl::Controllable { active_animation: 1 });
    control.toggle_play(0, 70);
    assert_eq!(control, AnimationControl::Loop { active_animation: 0, start_time: 70 });
    control.scrub(1);
    assert_eq!(control, AnimationControl::Controllable { active_animation: 1 });
    control.freeze();
    assert_eq!(control, AnimationControl::Static);
    control.scrub(0);
    assert_eq!(control, AnimationControl::Controllable { active_animation: 0 });
}

#[test]
fn scrubbing_sets_the_time_and_stops_the_loop() {
    let mut all = two_clips(AnimationControl::Loop { active_animation: 0, start_time: 0 });
    assert_eq!(all.scrub(1, 3), Ok(()));
    assert_eq!(all.animation_control, AnimationControl::Controllable { active_animation: 1 });
    assert_eq!(all.current_time(1), Some(3));
    assert_eq!(all.current_time(0), Some(0));
    assert_eq!(all.current_time(2), None);
    // The clock plays no part while the clip stands still.
    let pose = all.recalculate_animation(1_000).unwrap();
    assert_eq!(all.current_time(1), Some(3));
    assert_eq!(
        pose,
        vec![NodeAnimationTransform::new(7, AnimationTransform::Translation(Vec3::new(3.0, 0.0, 0.0)))]
    );
    assert_eq!(all.scrub(2, 3), Err(AnimationError::UnknownAnimation));
    assert_eq!(all.animation_control, AnimationControl::Controllable { active_animation: 1 });
    all.toggle_play(0, 77);
    assert_eq!(all.animation_control, AnimationControl::Loop { active_animation: 0, start_time: 77 });
}

#[test]
fn nothing_is_posed_while_static() {
    let mut all = two_clips(AnimationControl::Static);
    assert_eq!(all.recalculate_animation(5 * SECOND), Ok(Vec::new()));
    assert_eq!(all.current_time(0), Some(0));
    let mut renderer = Renderer::new();
    renderer.node_animation_transforms =
        vec![NodeAnimationTransform::new(1, AnimationTransform::Scale(Vec3::ONE))];
    assert_eq!(renderer.recalculate_animation(&mut all, 5 * SECOND), Ok(()));
    assert!(renderer.node_animation_transforms.is_empty());
}

#[test]
fn an_unknown_clip_is_reported() {
    let mut all = two_clips(AnimationControl::Loop { active_animation: 2, start_time: 0 });
    assert_eq!(all.recalculate_animation(SECOND), Err(AnimationError::UnknownAnimation));
    let mut all = two_clips(AnimationControl::Controllable { active_animation: 9 });
    assert_eq!(all.recalculate_animation(SECOND), Err(AnimationError::UnknownAnimation));
    let mut renderer = Renderer::new();
    renderer.node_animation_transforms =
        vec![NodeAnimationTransform::new(1, AnimationTransform::Scale(Vec3::ONE))];
    assert_eq!(
        renderer.recalculate_animation(&mut all, SECOND),
        Err(AnimationError::UnknownAnimation)
    );
    assert!(renderer.node_animation_transforms.is_empty());
}

#[test]
fn the_renderer_keeps_the_pose_of_the_frame() {
    let mut all = two_clips(AnimationControl::Loop { active_animation: 1, start_time: 100 });
    let mut renderer = Renderer::new();
    assert_eq!(renderer.recalculate_animation(&mut all, 107), Ok(()));
    assert_eq!(all.current_time(1), Some(3));
    assert_eq!(
        renderer.node_animation_transforms,
        vec![NodeAnimationTransform::new(7, AnimationTransform::Translation(Vec3::new(3.0, 0.0, 0.0)))]
    );
}

#[test]
fn editing_a_joint_stops_the_animation() {
    let mut all = two_clips(AnimationControl::Loop { active_animation: 0, start_time: 0 });
    let rest = Transform { translation: Vec3::ZERO, rotation: Quat::IDENTITY, scale: Vec3::ONE };
    let mut joint = Joint::new(3, Some(1), Mat4::IDENTITY, rest, "arm".to_string());
    let edited = Transform { translation: Vec3::new(0.0, 1.0, 0.0), ..rest };
    all.edit_joint(&mut joint, edited);
    assert_eq!(all.animation_control, AnimationControl::Static);
    assert_eq!(joint.transform, edited);
    assert_eq!(joint.parent, Some(1));
    assert_eq!(joint.name, "arm");
    assert_eq!(all.animations.len(), 2);
}
