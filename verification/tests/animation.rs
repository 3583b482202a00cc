use glam::{Quat, Vec3};
use skeletal::animation::{
    interpolate_rotation, locate, AnimationTransform, AnimationTransforms, Channel, KeyframeSpan,
};
use skeletal::clip::{end_time, Animation, NodeAnimationTransform, INITIAL_TIME};
use skeletal::decode::{AnimationSource, ChannelOutputs, ChannelSource, EncodedRotations};
use skeletal::error::{AnimationError, Interpolation};
use skeletal::linalg::is_negative;
use skeletal::playback::AnimationControl;

const SECOND: i64 = 1_000_000_000;

fn translations() -> Channel {
    Channel::new(
        3,
        vec![0, SECOND, 2 * SECOND],
        AnimationTransforms::Translations(vec![
            Vec3::new(0.0, 0.0, 0.0),
            Vec3::new(1.0, 0.0, 0.0),
            Vec3::new(1.0, 1.0, 0.0),
        ]),
        Interpolation::Linear,
    )
}

#[test]
fn interpolation_boundary() {
    let channel = translations();
    assert_eq!(
        channel.resolve(SECOND / 2),
        Ok(Some(AnimationTransform::Translation(Vec3::new(0.5, 0.0, 0.0))))
    );
    assert_eq!(
        channel.resolve(3 * SECOND / 2),
        Ok(Some(AnimationTransform::Translation(Vec3::new(1.0, 0.5, 0.0))))
    );
    assert_eq!(
        channel.resolve(-SECOND),
        Ok(Some(AnimationTransform::Translation(Vec3::new(0.0, 0.0, 0.0))))
    );
    assert_eq!(
        channel.resolve(5 * SECOND),
        Ok(Some(AnimationTransform::Translation(Vec3::new(1.0, 1.0, 0.0))))
    );
}

#[test]
fn keyframes_hold_at_their_own_time() {
    let channel = translations();
    assert_eq!(
        channel.resolve(0),
        Ok(Some(AnimationTransform::Translation(Vec3::new(0.0, 0.0, 0.0))))
    );
    assert_eq!(
        channel.resolve(SECOND),
        Ok(Some(AnimationTransform::Translation(Vec3::new(1.0, 0.0, 0.0))))
    );
    assert_eq!(
        channel.resolve(2 * SECOND),
        Ok(Some(AnimationTransform::Translation(Vec3::new(1.0, 1.0, 0.0))))
    );
}

#[test]
fn locate_names_the_span() {
    let times = vec![10, 20, 40];
    assert_eq!(locate(&times, 9), Some(KeyframeSpan::Fixed { index: 0 }));
    assert_eq!(locate(&times, 10), Some(KeyframeSpan::Between { start: 0 }));
    assert_eq!(locate(&times, 19), Some(KeyframeSpan::Between { start: 0 }));
    assert_eq!(locate(&times, 20), Some(KeyframeSpan::Between { start: 1 }));
    assert_eq!(locate(&times, 39), Some(KeyframeSpan::Between { start: 1 }));
    assert_eq!(locate(&times, 40), Some(KeyframeSpan::Fixed { index: 2 }));
    assert_eq!(locate(&times, i64::MAX), Some(KeyframeSpan::Fixed { index: 2 }));
    assert_eq!(locate(&times, i64::MIN), Some(KeyframeSpan::Fixed { index: 0 }));
    assert_eq!(locate(&vec![5], 5), Some(KeyframeSpan::Fixed { index: 0 }));
    assert_eq!(locate(&vec![5], 4), Some(KeyframeSpan::Fixed { index: 0 }));
    assert_eq!(locate(&Vec::new(), 4), None);
    // Times that do not ascend: the first pair that encloses the time counts.
    assert_eq!(locate(&vec![0, 10, 5, 20], 7), Some(KeyframeSpan::Between { start: 0 }));
    assert_eq!(locate(&vec![0, 10, 5, 20], 15), Some(KeyframeSpan::Between { start: 2 }));
}

#[test]
fn the_weight_is_the_share_of_the_span() {
    let channel = Channel::new(
        0,
        vec![SECOND, 5 * SECOND],
        AnimationTransforms::Scales(vec![Vec3::new(0.0, 8.0, 1.0), Vec3::new(4.0, 0.0, 1.0)]),
        Interpolation::Linear,
    );
    assert_eq!(
        channel.resolve(2 * SECOND),
        Ok(Some(AnimationTransform::Scale(Vec3::new(1.0, 6.0, 1.0))))
    );
    assert_eq!(
        channel.interpolate_transforms(0, 3, 4),
        Ok(AnimationTransform::Scale(Vec3::new(3.0, 2.0, 1.0)))
    );
    assert_eq!(
        channel.get_fixed_transform(1),
        Ok(AnimationTransform::Scale(Vec3::new(4.0, 0.0, 1.0)))
    );
}

#[test]
fn far_apart_times_do_not_overflow() {
    let channel = Channel::new(
        0,
        vec![i64::MIN, i64::MAX],
        AnimationTransforms::Translations(vec![Vec3::ZERO, Vec3::new(2.0, 0.0, 0.0)]),
        Interpolation::Linear,
    );
    match channel.resolve(0) {
        Ok(Some(AnimationTransform::Translation(v))) => assert!((v.x - 1.0).abs() < 1e-6),
        other => panic!("{:?}", other),
    }
}

#[test]
fn slerp_shortest_path() {
    let q0 = Quat::from_rotation_y(0.3);
    let q1 = -Quat::from_rotation_y(1.1);
    assert!(q0.dot(q1) < 0.0);
    let channel = Channel::new(
        1,
        vec![0, SECOND],
        AnimationTransforms::Rotations(vec![q0, q1]),
        Interpolation::Linear,
    );
    let expected = (-q0).slerp(q1, 0.5).normalize();
    assert_eq!(channel.resolve(SECOND / 2), Ok(Some(AnimationTransform::Rotation(expected))));
    let long_way = q0.slerp(q1, 0.5);
    assert_ne!(channel.resolve(SECOND / 2), Ok(Some(AnimationTransform::Rotation(long_way))));
    // It is the rotation half way between the two.
    assert!(expected.angle_between(Quat::from_rotation_y(0.7)) < 1e-3);
}

#[test]
fn rotations_are_normalized_before_and_after() {
    let q0 = Quat::from_xyzw(0.0, 0.0, 0.0, 2.0);
    let q1 = Quat::from_xyzw(0.0, 3.0, 0.0, 3.0);
    let expected = q0.normalize().slerp(q1.normalize(), 0.25).normalize();
    assert_eq!(interpolate_rotation(q0, q1, 1, 4), expected);
    assert!((interpolate_rotation(q0, q1, 1, 4).length() - 1.0).abs() < 1e-6);
    // With a dot product of zero the start is kept as it is.
    let a = Quat::from_xyzw(1.0, 0.0, 0.0, 0.0);
    let b = Quat::from_xyzw(0.0, 1.0, 0.0, 0.0);
    assert_eq!(a.dot(b), 0.0);
    assert_eq!(interpolate_rotation(a, b, 1, 2), a.slerp(b, 0.5).normalize());
}

#[test]
fn sign_test_follows_the_bit_pattern() {
    assert!(is_negative((-1.0f32).to_bits()));
    assert!(is_negative((-f32::MIN_POSITIVE).to_bits()));
    assert!(is_negative(f32::NEG_INFINITY.to_bits()));
    assert!(is_negative(0x8000_0001));
    assert!(!is_negative((-0.0f32).to_bits()));
    assert!(!is_negative(0.0f32.to_bits()));
    assert!(!is_negative(1.0f32.to_bits()));
    assert!(!is_negative(f32::INFINITY.to_bits()));
    assert!(!is_negative(f32::NAN.to_bits()));
    assert!(!is_negative((-f32::NAN).to_bits()));
    assert!(!is_negative(0xff80_0001));
}

#[test]
fn step_and_cubic_spline_are_refused() {
    for mode in [Interpolation::Step, Interpolation::CubicSpline] {
        let channel = Channel::new(
            0,
            vec![0, SECOND],
            AnimationTransforms::Translations(vec![Vec3::ZERO, Vec3::ONE]),
            mode,
        );
        let refused = Err(AnimationError::UnsupportedInterpolation { mode });
        assert_eq!(channel.get_fixed_transform(0), refused);
        assert_eq!(channel.interpolate_transforms(0, 1, 2), refused);
        assert_eq!(channel.resolve(SECOND / 2), refused.map(Some));
        assert_eq!(channel.resolve(-1), refused.map(Some));
    }
    // Without keyframes nothing is sampled, and nothing refused.
    let empty = Channel::new(
        0,
        Vec::new(),
        AnimationTransforms::Translations(Vec::new()),
        Interpolation::Step,
    );
    assert_eq!(empty.resolve(0), Ok(None));
}

#[test]
fn missing_values_are_reported() {
    let channel = Channel::new(
        0,
        vec![0, SECOND, 2 * SECOND],
        AnimationTransforms::Translations(vec![Vec3::ZERO, Vec3::ONE]),
        Interpolation::Linear,
    );
    assert_eq!(
        channel.resolve(SECOND / 2),
        Ok(Some(AnimationTransform::Translation(Vec3::splat(0.5))))
    );
    assert_eq!(channel.resolve(3 * SECOND / 2), Err(AnimationError::MissingKeyframeValue));
    assert_eq!(channel.resolve(2 * SECOND), Err(AnimationError::MissingKeyframeValue));
    assert_eq!(channel.get_fixed_transform(2), Err(AnimationError::MissingKeyframeValue));
    assert_eq!(channel.interpolate_transforms(1, 1, 2), Err(AnimationError::MissingKeyframeValue));
    assert_eq!(
        channel.interpolate_transforms(usize::MAX, 1, 2),
        Err(AnimationError::MissingKeyframeValue)
    );
}

#[test]
fn round_trip_decode() {
    let decoded = Animation::decode_rotations(&EncodedRotations::U16(vec![[65535, 0, 0, 65535]]));
    assert_eq!(decoded, AnimationTransforms::Rotations(vec![Quat::from_xyzw(1.0, 0.0, 0.0, 1.0)]));
}

#[test]
fn normalized_integers_decode_by_the_table() {
    let decoded = Animation::decode_rotations(&EncodedRotations::I8(vec![[127, -127, -128, 0]]));
    assert_eq!(decoded, AnimationTransforms::Rotations(vec![Quat::from_xyzw(1.0, -1.0, -1.0, 0.0)]));
    let decoded = Animation::decode_rotations(&EncodedRotations::I8(vec![[64, -64, 1, -1]]));
    assert_eq!(
        decoded,
        AnimationTransforms::Rotations(vec![Quat::from_xyzw(
            64.0 / 127.0,
            -64.0 / 127.0,
            1.0 / 127.0,
            -1.0 / 127.0
        )])
    );
    let decoded = Animation::decode_rotations(&EncodedRotations::U8(vec![[255, 0, 51, 128]]));
    assert_eq!(
        decoded,
        AnimationTransforms::Rotations(vec![Quat::from_xyzw(1.0, 0.0, 0.2, 128.0 / 255.0)])
    );
    let decoded =
        Animation::decode_rotations(&EncodedRotations::I16(vec![[32767, -32767, -32768, 16384]]));
    assert_eq!(
        decoded,
        AnimationTransforms::Rotations(vec![Quat::from_xyzw(1.0, -1.0, -1.0, 16384.0 / 32767.0)])
    );
    let decoded = Animation::decode_rotations(&EncodedRotations::U16(vec![[13107, 1, 65534, 0]]));
    assert_eq!(
        decoded,
        AnimationTransforms::Rotations(vec![Quat::from_xyzw(
            0.2,
            1.0 / 65535.0,
            65534.0 / 65535.0,
            0.0
        )])
    );
}

#[test]
fn decoded_rotations_are_not_normalized() {
    let q = Quat::from_xyzw(0.0, 0.0, 0.0, 2.0);
    let decoded = Animation::decode_rotations(&EncodedRotations::F32(vec![q, Quat::IDENTITY]));
    assert_eq!(decoded, AnimationTransforms::Rotations(vec![q, Quat::IDENTITY]));
    let decoded = Animation::decode_rotations(&EncodedRotations::U8(vec![[255, 255, 255, 255]]));
    assert_eq!(decoded, AnimationTransforms::Rotations(vec![Quat::from_xyzw(1.0, 1.0, 1.0, 1.0)]));
}

fn source(times: Option<Vec<i64>>, outputs: Option<ChannelOutputs>) -> ChannelSource {
    ChannelSource { node: 2, keyframe_times: times, outputs, interpolation: Interpolation::Linear }
}

#[test]
fn clips_are_made_from_the_asset() {
    let sources = vec![
        AnimationSource {
            name: Some("walk".to_string()),
            channels: vec![
                source(
                    Some(vec![0, SECOND]),
                    Some(ChannelOutputs::Translations(vec![Vec3::ZERO, Vec3::ONE])),
                ),
                source(
                    Some(vec![0, 3 * SECOND]),
                    Some(ChannelOutputs::Rotations(EncodedRotations::U8(vec![
                        [0, 0, 0, 255],
                        [255, 0, 0, 0],
                    ]))),
                ),
                source(Some(vec![2 * SECOND]), Some(ChannelOutputs::Scales(vec![Vec3::ONE]))),
            ],
        },
        AnimationSource { name: None, channels: Vec::new() },
    ];
    let all = Animation::from_gltf(&sources).unwrap();
    assert_eq!(all.animation_control, AnimationControl::Static);
    assert_eq!(all.animations.len(), 2);
    let walk = &all.animations[0];
    assert_eq!(walk.name.as_deref(), Some("walk"));
    assert_eq!(walk.current_time, INITIAL_TIME);
    assert_eq!(walk.current_time, SECOND / 10);
    assert_eq!(walk.end_time, 3 * SECOND);
    assert_eq!(walk.channels.len(), 3);
    assert_eq!(walk.channels[0].node, 2);
    assert_eq!(walk.channels[0].keyframe_times, vec![0, SECOND]);
    assert_eq!(
        walk.channels[0].transforms,
        AnimationTransforms::Translations(vec![Vec3::ZERO, Vec3::ONE])
    );
    assert_eq!(
        walk.channels[1].transforms,
        AnimationTransforms::Rotations(vec![
            Quat::from_xyzw(0.0, 0.0, 0.0, 1.0),
            Quat::from_xyzw(1.0, 0.0, 0.0, 0.0)
        ])
    );
    assert_eq!(walk.channels[2].transforms, AnimationTransforms::Scales(vec![Vec3::ONE]));
    assert_eq!(walk.channels[2].interpolation_type, Interpolation::Linear);
    let idle = &all.animations[1];
    assert_eq!(idle.name, None);
    assert_eq!(idle.end_time, 0);
    assert!(idle.channels.is_empty());
}

#[test]
fn the_first_faulty_channel_decides_the_error() {
    let good = || source(Some(vec![0]), Some(ChannelOutputs::Scales(vec![Vec3::ONE])));
    let no_times = || source(None, None);
    let no_values = || source(Some(vec![0]), None);
    let morph = || source(Some(vec![0]), Some(ChannelOutputs::MorphTargetWeights));
    let clip = |channels| vec![AnimationSource { name: None, channels }];
    assert_eq!(
        Animation::from_gltf(&clip(vec![good(), no_times(), no_values()])),
        Err(AnimationError::MissingKeyframeTimes)
    );
    assert_eq!(
        Animation::from_gltf(&clip(vec![no_values(), no_times()])),
        Err(AnimationError::MissingTransforms)
    );
    assert_eq!(
        Animation::from_gltf(&clip(vec![good(), morph(), no_times()])),
        Err(AnimationError::UnsupportedMorphTargets)
    );
    let two = vec![
        AnimationSource { name: None, channels: vec![good(), morph()] },
        AnimationSource { name: None, channels: vec![no_times()] },
    ];
    assert_eq!(Animation::from_gltf(&two), Err(AnimationError::UnsupportedMorphTargets));
    assert!(Animation::from_gltf(&Vec::new()).unwrap().animations.is_empty());
}

#[test]
fn the_clip_ends_with_its_last_keyframe() {
    let channel = |times: Vec<i64>| {
        let values = vec![Vec3::ZERO; times.len()];
        Channel::new(0, times, AnimationTransforms::Translations(values), Interpolation::Linear)
    };
    assert_eq!(end_time(&Vec::new()), 0);
    assert_eq!(end_time(&vec![channel(Vec::new())]), 0);
    assert_eq!(end_time(&vec![channel(vec![0, 5]), channel(vec![1, 9]), channel(vec![7])]), 9);
    assert_eq!(end_time(&vec![channel(vec![-5, -2])]), 0);
}

#[test]
fn the_pose_lists_the_channels_in_order() {
    let position = Channel::new(
        4,
        vec![0, SECOND],
        AnimationTransforms::Translations(vec![Vec3::ZERO, Vec3::new(2.0, 0.0, 0.0)]),
        Interpolation::Linear,
    );
    let empty = Channel::new(
        5,
        Vec::new(),
        AnimationTransforms::Scales(Vec::new()),
        Interpolation::Linear,
    );
    let size = Channel::new(
        6,
        vec![0],
        AnimationTransforms::Scales(vec![Vec3::splat(3.0)]),
        Interpolation::Linear,
    );
    let clip = Animation::new(vec![position, empty, size], SECOND / 2, SECOND, None);
    assert_eq!(
        clip.resolve(),
        Ok(vec![
            NodeAnimationTransform::new(4, AnimationTransform::Translation(Vec3::new(1.0, 0.0, 0.0))),
            NodeAnimationTransform::new(6, AnimationTransform::Scale(Vec3::splat(3.0))),
        ])
    );
    let step = Channel::new(
        7,
        vec![0],
        AnimationTransforms::Scales(vec![Vec3::ONE]),
        Interpolation::Step,
    );
    let short = Channel::new(
        8,
        vec![0],
        AnimationTransforms::Scales(Vec::new()),
        Interpolation::Linear,
    );
    let clip = Animation::new(vec![step, short], 0, SECOND, None);
    assert_eq!(
        clip.resolve(),
        Err(AnimationError::UnsupportedInterpolation { mode: Interpolation::Step })
    );
}
