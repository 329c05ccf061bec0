//! The closed property-variant set and its dispatch operations.
//!
//! `AnimationType` wraps exactly one concrete `Animation<T>`, so that
//! animations of different property types can be stored together and the
//! timing operations dispatched without the caller knowing the concrete
//! type.  Adding a property type means adding a variant and one arm per
//! dispatch site.

use vstd::prelude::*;
use vstd::std_specs::convert::FromSpecImpl;
use crate::animation::{Animation, Setting, set_properties};
use crate::ease::EaseType;
use crate::properties::{StrokeColor, FillColor, Position, Angle, Size, Opacity, PathCompletion};

verus! {

/// Exactly one animation of one of the supported property types.
#[derive(Clone, Copy, Debug, PartialEq)]
pub enum AnimationType {
    StrokeColor(Animation<StrokeColor>),
    FillColor(Animation<FillColor>),
    Position(Animation<Position>),
    Angle(Animation<Angle>),
    Size(Animation<Size>),
    Opacity(Animation<Opacity>),
    PathCompletion(Animation<PathCompletion>),
}

impl AnimationType {
    /// The wrapped animation's start-time field.
    pub open spec fn start_time_setting(self) -> Setting<i64> {
        match self {
            AnimationType::StrokeColor(a) => a.start_time,
            AnimationType::FillColor(a) => a.start_time,
            AnimationType::Position(a) => a.start_time,
            AnimationType::Angle(a) => a.start_time,
            AnimationType::Size(a) => a.start_time,
            AnimationType::Opacity(a) => a.start_time,
            AnimationType::PathCompletion(a) => a.start_time,
        }
    }

    /// The wrapped animation's duration field.
    pub open spec fn duration_setting(self) -> Setting<i64> {
        match self {
            AnimationType::StrokeColor(a) => a.duration,
            AnimationType::FillColor(a) => a.duration,
            AnimationType::Position(a) => a.duration,
            AnimationType::Angle(a) => a.duration,
            AnimationType::Size(a) => a.duration,
            AnimationType::Opacity(a) => a.duration,
            AnimationType::PathCompletion(a) => a.duration,
        }
    }

    /// The wrapped animation's easing-selector field.
    pub open spec fn rate_func_setting(self) -> Setting<EaseType> {
        match self {
            AnimationType::StrokeColor(a) => a.rate_func,
            AnimationType::FillColor(a) => a.rate_func,
            AnimationType::Position(a) => a.rate_func,
            AnimationType::Angle(a) => a.rate_func,
            AnimationType::Size(a) => a.rate_func,
            AnimationType::Opacity(a) => a.rate_func,
            AnimationType::PathCompletion(a) => a.rate_func,
        }
    }

    /// All three timing fields still hold constructor defaults.
    pub open spec fn all_defaulted(self) -> bool {
        &&& self.start_time_setting().is_defaulted()
        &&& self.duration_setting().is_defaulted()
        &&& self.rate_func_setting().is_defaulted()
    }

    /// The wrapped animation is well formed.
    pub open spec fn wf(self) -> bool {
        match self {
            AnimationType::StrokeColor(a) => a.wf(),
            AnimationType::FillColor(a) => a.wf(),
            AnimationType::Position(a) => a.wf(),
            AnimationType::Angle(a) => a.wf(),
            AnimationType::Size(a) => a.wf(),
            AnimationType::Opacity(a) => a.wf(),
            AnimationType::PathCompletion(a) => a.wf(),
        }
    }

    /// The variant after a bulk-timing call: the wrapped animation with each
    /// still-defaulted timing field overwritten by the supplied value.
    pub open spec fn timed_spec(self, start_time: i64, duration: i64, rate_func: EaseType) -> Self {
        match self {
            AnimationType::StrokeColor(a) => AnimationType::StrokeColor(
                a.timed_spec(start_time, duration, rate_func),
            ),
            AnimationType::FillColor(a) => AnimationType::FillColor(
                a.timed_spec(start_time, duration, rate_func),
            ),
            AnimationType::Position(a) => AnimationType::Position(
                a.timed_spec(start_time, duration, rate_func),
            ),
            AnimationType::Angle(a) => AnimationType::Angle(
                a.timed_spec(start_time, duration, rate_func),
            ),
            AnimationType::Size(a) => AnimationType::Size(
                a.timed_spec(start_time, duration, rate_func),
            ),
            AnimationType::Opacity(a) => AnimationType::Opacity(
                a.timed_spec(start_time, duration, rate_func),
            ),
            AnimationType::PathCompletion(a) => AnimationType::PathCompletion(
                a.timed_spec(start_time, duration, rate_func),
            ),
        }
    }

    /// Overwrite each still-defaulted timing field of the wrapped animation
    /// with the supplied value; explicitly set fields are left untouched.
    pub fn set_timing(&mut self, start_time: i64, duration: i64, rate_func: EaseType)
        ensures
            *final(self) == old(self).timed_spec(start_time, duration, rate_func),
    {
        match self {
            AnimationType::StrokeColor(a) => set_properties(a, start_time, duration, rate_func),
            AnimationType::FillColor(a) => set_properties(a, start_time, duration, rate_func),
            AnimationType::Position(a) => set_properties(a, start_time, duration, rate_func),
            AnimationType::Angle(a) => set_properties(a, start_time, duration, rate_func),
            AnimationType::Size(a) => set_properties(a, start_time, duration, rate_func),
            AnimationType::Opacity(a) => set_properties(a, start_time, duration, rate_func),
            AnimationType::PathCompletion(a) => set_properties(a, start_time, duration, rate_func),
        }
    }

    /// Read the wrapped animation's start-time offset, in milliseconds.
    pub fn start_time_ms(&self) -> (r: i64)
        ensures
            r == self.start_time_setting().value(),
    {
        match self {
            AnimationType::StrokeColor(a) => a.start_time.get(),
            AnimationType::FillColor(a) => a.start_time.get(),
            AnimationType::Position(a) => a.start_time.get(),
            AnimationType::Angle(a) => a.start_time.get(),
            AnimationType::Size(a) => a.start_time.get(),
            AnimationType::Opacity(a) => a.start_time.get(),
            AnimationType::PathCompletion(a) => a.start_time.get(),
        }
    }
}

impl From<Animation<StrokeColor>> for AnimationType {
    fn from(animation: Animation<StrokeColor>) -> AnimationType {
        AnimationType::StrokeColor(animation)
    }
}

impl FromSpecImpl<Animation<StrokeColor>> for AnimationType {
    open spec fn obeys_from_spec() -> bool {
        true
    }

    open spec fn from_spec(animation: Animation<StrokeColor>) -> AnimationType {
        AnimationType::StrokeColor(animation)
    }
}

impl From<Animation<FillColor>> for AnimationType {
    fn from(animation: Animation<FillColor>) -> AnimationType {
        AnimationType::FillColor(animation)
    }
}

impl FromSpecImpl<Animation<FillColor>> for AnimationType {
    open spec fn obeys_from_spec() -> bool {
        true
    }

    open spec fn from_spec(animation: Animation<FillColor>) -> AnimationType {
        AnimationType::FillColor(animation)
    }
}

impl From<Animation<Position>> for AnimationType {
    fn from(animation: Animation<Position>) -> AnimationType {
        AnimationType::Position(animation)
    }
}

impl FromSpecImpl<Animation<Position>> for AnimationType {
    open spec fn obeys_from_spec() -> bool {
        true
    }

    open spec fn from_spec(animation: Animation<Position>) -> AnimationType {
        AnimationType::Position(animation)
    }
}

impl From<Animation<Angle>> for AnimationType {
    fn from(animation: Animation<Angle>) -> AnimationType {
        AnimationType::Angle(animation)
    }
}

impl FromSpecImpl<Animation<Angle>> for AnimationType {
    open spec fn obeys_from_spec() -> bool {
        true
    }

    open spec fn from_spec(animation: Animation<Angle>) -> AnimationType {
        AnimationType::Angle(animation)
    }
}

impl From<Animation<Size>> for AnimationType {
    fn from(animation: Animation<Size>) -> AnimationType {
        AnimationType::Size(animation)
    }
}

impl FromSpecImpl<Animation<Size>> for AnimationType {
    open spec fn obeys_from_spec() -> bool {
        true
    }

    open spec fn from_spec(animation: Animation<Size>) -> AnimationType {
        AnimationType::Size(animation)
    }
}

impl From<Animation<Opacity>> for AnimationType {
    fn from(animation: Animation<Opacity>) -> AnimationType {
        AnimationType::Opacity(animation)
    }
}

impl FromSpecImpl<Animation<Opacity>> for AnimationType {
    open spec fn obeys_from_spec() -> bool {
        true
    }

    open spec fn from_spec(animation: Animation<Opacity>) -> AnimationType {
        AnimationType::Opacity(animation)
    }
}

impl From<Animation<PathCompletion>> for AnimationType {
    fn from(animation: Animation<PathCompletion>) -> AnimationType {
        AnimationType::PathCompletion(animation)
    }
}

impl FromSpecImpl<Animation<PathCompletion>> for AnimationType {
    open spec fn obeys_from_spec() -> bool {
        true
    }

    open spec fn from_spec(animation: Animation<PathCompletion>) -> AnimationType {
        AnimationType::PathCompletion(animation)
    }
}

/// A bulk-timing call on a batch whose timing fields are all still
/// defaulted sets every animation's start time, duration and easing
/// selector to the supplied values identically.
pub proof fn lemma_bulk_timing_fills_defaulted_batch(
    batch: Seq<AnimationType>,
    start_time: i64,
    duration: i64,
    rate_func: EaseType,
)
    requires
        forall|i: int| 0 <= i < batch.len() ==> (#[trigger] batch[i]).all_defaulted(),
    ensures
        forall|i: int| 0 <= i < batch.len()
            ==> (#[trigger] batch[i]).timed_spec(start_time, duration, rate_func)
                .start_time_setting() == Setting::Defaulted(start_time),
        forall|i: int| 0 <= i < batch.len()
            ==> (#[trigger] batch[i]).timed_spec(start_time, duration, rate_func)
                .duration_setting() == Setting::Defaulted(duration),
        forall|i: int| 0 <= i < batch.len()
            ==> (#[trigger] batch[i]).timed_spec(start_time, duration, rate_func)
                .rate_func_setting() == Setting::<EaseType>::Defaulted(rate_func),
{
}

} // verus!
