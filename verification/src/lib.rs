//! Skeletal animation and skinning for glTF models: the joint hierarchy of a skin,
//! keyframe animation, playback control, and the skinning matrices of a pose.

pub mod animation;
pub mod clip;
pub mod decode;
pub mod error;
pub mod gui;
pub mod joints;
pub mod label;
pub mod linalg;
pub mod mesh;
pub mod model;
pub mod playback;
pub mod render;
pub mod scene;
pub mod skinning;
pub mod transform;
pub mod util;
