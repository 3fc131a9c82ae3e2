//! Time-driven value interpolation: animations built from composable
//! combinators and played back by a stateful timeline.
//!
//! Durations and clock readings are whole nanoseconds (`u64`).
use vstd::prelude::*;

pub mod animatable;
pub mod animator;
pub mod animation;
pub mod clock;
pub mod easing;
pub mod options;
pub mod progress;
pub mod timeline;
pub mod builder;

pub use animatable::Animatable;
pub use animation::key_frame::{KeyFrame, KeyTime};
pub use animation::seek::SeekFrom;
pub use animation::step::{Cursor, Infinite, StepAnimation};
pub use animation::{Animation, AnimationClone, BaseAnimation};
pub use animator::{Manager, TimelineControl, TimelineScheduler};
pub use clock::{Clock, DefaultClock};
pub use easing::Function;
pub use options::{Options, RepeatBehavior};
pub use progress::{Progress, Ratio};
pub use timeline::{IdGenerator, Status, Timeline, TimelineId};

verus! {

/// A duration of zero.
pub const DURATION_ZERO: u64 = 0;

/// The default animation time, one second.
pub const DEFAULT_ANIMATION_DURATION: u64 = 1_000_000_000;

/// Nanoseconds in one millisecond.
pub const NANOS_PER_MILLI: u64 = 1_000_000;

} // verus!
