//! Builders of animations.
pub use crate::animation::{constant, key_frames, linear, steps, steps_infinite};
