//! The per-property animation state machine.
//!
//! An `Animation<T>` owns an optional begin value (captured lazily from the
//! live property on the first update), an end-value specification, a time
//! window and an easing selector.  Updates drive it through the states
//! unarmed, armed and resolving: the first update arms it, a relative end
//! specification is converted to an absolute one on the following update,
//! and from then on every update interpolates the live property in place.

use vstd::prelude::*;
use bevy_ecs::entity::Entity;
use crate::ease::EaseType;
use crate::interp::{Interpolate, VALUE_BOUND, END_BOUND, PROGRESS_BOUND};
use crate::PROGRESS_ONE;

verus! {

/// Default duration, in milliseconds, of an animation toward an absolute
/// value.
pub const DEFAULT_TO_DURATION_MS: i64 = 3000;

/// Default duration, in milliseconds, of an animation toward another
/// object's value or by a relative delta.
pub const DEFAULT_DURATION_MS: i64 = 1000;

/// A timing field together with its override precedence: a defaulted field
/// is still eligible for a bulk-timing override, an explicit one is locked.
#[derive(Clone, Copy, Debug, PartialEq, Eq)]
pub enum Setting<V> {
    /// Still holding a constructor default; a bulk-timing call may overwrite
    /// the value.
    Defaulted(V),
    /// Explicitly configured through a fluent setter; immune to bulk-timing
    /// overwrites.
    Explicit(V),
}

impl<V: Copy> Setting<V> {
    /// The stored value, whatever its precedence.
    pub open spec fn value(self) -> V {
        match self {
            Setting::Defaulted(v) => v,
            Setting::Explicit(v) => v,
        }
    }

    /// Whether the field still holds a constructor default.
    pub open spec fn is_defaulted(self) -> bool {
        self is Defaulted
    }

    /// Read the stored value, whatever its precedence.
    pub fn get(&self) -> (r: V)
        ensures
            r == self.value(),
    {
        match self {
            Setting::Defaulted(v) => *v,
            Setting::Explicit(v) => *v,
        }
    }
}

/// How an animation's end value is determined: a fixed value, a delta added
/// to the lazily captured begin value, or a value copied once from another
/// object at resolution time.
#[derive(Clone, Copy, Debug, PartialEq)]
pub enum Value<T> {
    Absolute(T),
    Relative(T),
    From(Entity),
}

/// One pending or active animation of a property of type `T`.
#[derive(Clone, Copy, Debug, PartialEq)]
pub struct Animation<T> {
    /// The begin value, unset until the first update call arms it.
    pub begin: Option<T>,
    /// The end-value specification.
    pub end: Value<T>,
    /// The duration of the animation, in milliseconds.
    pub duration: Setting<i64>,
    /// The offset of the animation's start, in milliseconds.
    pub start_time: Setting<i64>,
    /// The easing selector; applied by the external scheduler, which hands
    /// `update` the progress fraction already eased.
    pub rate_func: Setting<EaseType>,
}

impl<T: Interpolate> Animation<T> {
    /// Every property value the animation holds is within the bounds the
    /// interpolation arithmetic needs.
    pub open spec fn wf(self) -> bool {
        &&& match self.begin {
            Some(b) => b.in_range(VALUE_BOUND as int),
            None => true,
        }
        &&& match self.end {
            Value::Absolute(t) => t.in_range(END_BOUND as int),
            Value::Relative(d) => d.in_range(VALUE_BOUND as int),
            Value::From(_) => true,
        }
    }

    /// The value `to(v)` returns.
    pub open spec fn to_spec(to: T) -> Self {
        (Animation {
            begin: None,
            end: Value::Absolute(to),
            duration: Setting::Defaulted(DEFAULT_TO_DURATION_MS),
            start_time: Setting::Defaulted(0),
            rate_func: Setting::Defaulted(EaseType::Quint),
        })
    }

    /// The value `to_target(target)` returns.
    pub open spec fn to_target_spec(target: Entity) -> Self {
        (Animation {
            begin: None,
            end: Value::From(target),
            duration: Setting::Defaulted(DEFAULT_DURATION_MS),
            start_time: Setting::Defaulted(0),
            rate_func: Setting::Defaulted(EaseType::Linear),
        })
    }

    /// The value `by(delta)` returns.
    pub open spec fn by_spec(delta: T) -> Self {
        (Animation {
            begin: None,
            end: Value::Relative(delta),
            duration: Setting::Defaulted(DEFAULT_DURATION_MS),
            start_time: Setting::Defaulted(0),
            rate_func: Setting::Defaulted(EaseType::Linear),
        })
    }

    /// An animation toward the absolute value `to`.
    pub fn to(to: T) -> (a: Self)
        requires
            to.in_range(VALUE_BOUND as int),
        ensures
            a == Self::to_spec(to),
            a.wf(),
    {
        proof {
            to.lemma_in_range_widen(VALUE_BOUND as int, END_BOUND as int);
        }
        Animation {
            begin: None,
            end: Value::Absolute(to),
            duration: Setting::Defaulted(DEFAULT_TO_DURATION_MS),
            start_time: Setting::Defaulted(0),
            rate_func: Setting::Defaulted(EaseType::Quint),
        }
    }

    /// An animation toward the value the object `target` will have at
    /// resolution time.
    pub fn to_target(target: Entity) -> (a: Self)
        ensures
            a == Self::to_target_spec(target),
            a.wf(),
    {
        Animation {
            begin: None,
            end: Value::From(target),
            duration: Setting::Defaulted(DEFAULT_DURATION_MS),
            start_time: Setting::Defaulted(0),
            rate_func: Setting::Defaulted(EaseType::Linear),
        }
    }

    /// An animation by the relative delta `by`, added to the begin value
    /// once it is captured.
    pub fn by_delta(delta: T) -> (a: Self)
        requires
            delta.in_range(VALUE_BOUND as int),
        ensures
            a == Self::by_spec(delta),
            a.wf(),
    {
        Animation {
            begin: None,
            end: Value::Relative(delta),
            duration: Setting::Defaulted(DEFAULT_DURATION_MS),
            start_time: Setting::Defaulted(0),
            rate_func: Setting::Defaulted(EaseType::Linear),
        }
    }

    /// The value `with_duration(d)` returns: the duration locked to `d`.
    pub open spec fn with_duration_spec(self, duration: i64) -> Self {
        (Animation { duration: Setting::Explicit(duration), ..self })
    }

    /// The value `with_start_time(t)` returns: the start time locked to `t`.
    pub open spec fn with_start_time_spec(self, start_time: i64) -> Self {
        (Animation { start_time: Setting::Explicit(start_time), ..self })
    }

    /// The value `with_rate_func(f)` returns: the easing selector locked to
    /// `f`.
    pub open spec fn with_rate_func_spec(self, rate_func: EaseType) -> Self {
        (Animation { rate_func: Setting::Explicit(rate_func), ..self })
    }

    /// Set the duration, in milliseconds, and lock it against bulk-timing
    /// overwrites.
    pub fn with_duration(self, duration: i64) -> (a: Self)
        ensures
            a == self.with_duration_spec(duration),
    {
        Animation { duration: Setting::Explicit(duration), ..self }
    }

    /// Set the start-time offset, in milliseconds, and lock it against
    /// bulk-timing overwrites.
    pub fn with_start_time(self, start_time: i64) -> (a: Self)
        ensures
            a == self.with_start_time_spec(start_time),
    {
        Animation { start_time: Setting::Explicit(start_time), ..self }
    }

    /// Set the easing selector and lock it against bulk-timing overwrites.
    pub fn with_rate_func(self, rate_func: EaseType) -> (a: Self)
        ensures
            a == self.with_rate_func_spec(rate_func),
    {
        Animation { rate_func: Setting::Explicit(rate_func), ..self }
    }

    /// The object the end value will be copied from, if any.
    pub open spec fn has_target_spec(self) -> Option<Entity> {
        match self.end {
            Value::From(entity) => Some(entity),
            _ => None,
        }
    }

    /// Return the referenced object exactly when the end specification
    /// copies from another object.
    pub fn has_target(&self) -> (r: Option<Entity>)
        ensures
            r == self.has_target_spec(),
    {
        match self.end {
            Value::From(entity) => Some(entity),
            _ => None,
        }
    }

    /// The value `init_from_target(end)` leaves behind: the end
    /// specification replaced by `Absolute(end)` when it copied from another
    /// object, everything else untouched.
    pub open spec fn resolved_spec(self, end: T) -> Self {
        match self.end {
            Value::From(_) => (Animation { end: Value::Absolute(end), ..self }),
            _ => self,
        }
    }

    /// Replace a from-object end specification with the referenced object's
    /// current value.  Calling it on any other animation, or a second time,
    /// is a silent no-op: the animation is left exactly as it was.
    pub fn init_from_target(&mut self, end: &T)
        requires
            old(self).wf(),
            end.in_range(END_BOUND as int),
        ensures
            *final(self) == old(self).resolved_spec(*end),
            !(old(self).end is From) ==> *final(self) == *old(self),
            final(self).wf(),
    {
        match self.end {
            Value::From(_) => {
                self.end = Value::Absolute(*end);
            }
            _ => (),
        }
    }

    /// The animation state after one update call on a property holding
    /// `prop`: an unarmed animation captures `prop` as its begin value, an
    /// armed relative one converts its delta to an absolute end value, and
    /// an unresolved from-object one is left untouched.
    pub open spec fn updated_anim(self, prop: T, progress: int) -> Self {
        match self.end {
            Value::From(_) => self,
            Value::Absolute(t) => if self.begin is None {
                (Animation { begin: Some(prop), ..self })
            } else {
                self
            },
            Value::Relative(d) => match self.begin {
                None => (Animation { begin: Some(prop), ..self }),
                Some(b) => (Animation { end: Value::Absolute(b.offset_spec(d)), ..self }),
            },
        }
    }

    /// The property value after one update call: interpolated between the
    /// begin and end values exactly when the animation is armed and its end
    /// value absolute, untouched otherwise.
    pub open spec fn updated_prop(self, prop: T, progress: int) -> T {
        match (self.begin, self.end) {
            (Some(b), Value::Absolute(t)) => b.lerped(t, progress),
            _ => prop,
        }
    }

    /// Drive the animation one tick: overwrite the live property with the
    /// value interpolated at the eased, scaled progress fraction
    /// `progress`, arming or converting first where needed.
    pub fn update(&mut self, property: &mut T, progress: i64)
        requires
            old(self).wf(),
            old(self).begin is None ==> old(property).in_range(VALUE_BOUND as int),
            -PROGRESS_BOUND <= progress && progress <= PROGRESS_BOUND,
        ensures
            *final(self) == old(self).updated_anim(*old(property), progress as int),
            *final(property) == old(self).updated_prop(*old(property), progress as int),
            final(self).wf(),
    {
        let b = self.begin;
        let e = self.end;
        match (b, e) {
            (Some(begin), Value::Absolute(to)) => {
                proof {
                    begin.lemma_in_range_widen(VALUE_BOUND as int, END_BOUND as int);
                }
                *property = begin.interp(&to, progress);
            }
            (Some(begin), Value::Relative(by)) => {
                proof {
                    begin.lemma_offset_in_range(by);
                }
                self.end = Value::Absolute(begin.offset(&by));
            }
            (None, Value::Absolute(_)) => {
                self.begin = Some(*property);
            }
            (None, Value::Relative(_)) => {
                self.begin = Some(*property);
            }
            (_, Value::From(_)) => (),
        }
    }

    /// The animation after a bulk-timing call: each timing field takes the
    /// supplied value only while it still holds a constructor default;
    /// explicitly set fields are left untouched.
    pub open spec fn timed_spec(self, start_time: i64, duration: i64, rate_func: EaseType) -> Self {
        (Animation {
            start_time: if self.start_time is Defaulted {
                Setting::Defaulted(start_time)
            } else {
                self.start_time
            },
            duration: if self.duration is Defaulted {
                Setting::Defaulted(duration)
            } else {
                self.duration
            },
            rate_func: if self.rate_func is Defaulted {
                Setting::Defaulted(rate_func)
            } else {
                self.rate_func
            },
            ..self
        })
    }
}

impl Animation<crate::properties::Position> {
    /// Drive a position animation one tick; identical in behaviour to
    /// `update`.
    pub fn update_position(&mut self, property: &mut crate::properties::Position, progress: i64)
        requires
            old(self).wf(),
            old(self).begin is None ==> old(property).in_range(VALUE_BOUND as int),
            -PROGRESS_BOUND <= progress && progress <= PROGRESS_BOUND,
        ensures
            *final(self) == old(self).updated_anim(*old(property), progress as int),
            *final(property) == old(self).updated_prop(*old(property), progress as int),
            final(self).wf(),
    {
        self.update(property, progress)
    }
}

/// Overwrite each timing field of `animation` with the supplied value only
/// while that field still holds a constructor default.
pub fn set_properties<T: Interpolate>(
    animation: &mut Animation<T>,
    start_time: i64,
    duration: i64,
    rate_func: EaseType,
)
    ensures
        *final(animation) == old(animation).timed_spec(start_time, duration, rate_func),
{
    if matches!(animation.start_time, Setting::Defaulted(_)) {
        animation.start_time = Setting::Defaulted(start_time);
    }
    if matches!(animation.duration, Setting::Defaulted(_)) {
        animation.duration = Setting::Defaulted(duration);
    }
    if matches!(animation.rate_func, Setting::Defaulted(_)) {
        animation.rate_func = Setting::Defaulted(rate_func);
    }
}

/// An animation built by `to(x)` first arms itself without touching the
/// property, and the next update at full progress sets the property to `x`
/// exactly.
pub proof fn lemma_to_arms_then_hits_target<T: Interpolate>(x: T, v: T, p1: int)
    ensures
        Animation::to_spec(x).updated_prop(v, p1) == v,
        Animation::to_spec(x).updated_anim(v, p1).begin == Some(v),
        Animation::to_spec(x).updated_anim(v, p1).updated_prop(v, PROGRESS_ONE as int) == x,
{
    v.lemma_lerped_one(x);
}

/// An animation built by `by(d)` arms on the first update and converts its
/// delta on the second, both without touching the property; a further
/// update then yields the begin value plus the delta at full progress and
/// the begin value unchanged at progress zero.
pub proof fn lemma_by_arms_converts_then_moves<T: Interpolate>(d: T, v: T, p1: int, p2: int)
    ensures
        ({
            let a0 = Animation::by_spec(d);
            let a1 = a0.updated_anim(v, p1);
            let a2 = a1.updated_anim(v, p2);
            &&& a0.updated_prop(v, p1) == v
            &&& a1.updated_prop(v, p2) == v
            &&& a2.end == Value::<T>::Absolute(v.offset_spec(d))
            &&& a2.updated_prop(v, PROGRESS_ONE as int) == v.offset_spec(d)
            &&& a2.updated_prop(v, 0) == v
        }),
{
    v.lemma_lerped_one(v.offset_spec(d));
    v.lemma_lerped_zero(v.offset_spec(d));
}

/// A timing field set through a fluent setter is never overwritten by a
/// later bulk-timing call, whatever values that call supplies.
pub proof fn lemma_explicit_fields_survive_bulk_timing<T: Interpolate>(
    a: Animation<T>,
    st: i64,
    d: i64,
    rf: EaseType,
    st2: i64,
    d2: i64,
    rf2: EaseType,
)
    ensures
        a.with_duration_spec(d).timed_spec(st2, d2, rf2).duration == Setting::Explicit(d),
        a.with_start_time_spec(st).timed_spec(st2, d2, rf2).start_time == Setting::Explicit(st),
        a.with_rate_func_spec(rf).timed_spec(st2, d2, rf2).rate_func == Setting::<EaseType>::Explicit(rf),
{
}

/// End to end: an animation built by `to_target(target)` reports `target`,
/// resolution replaces its end specification with the captured value, the
/// first update arms it, and the next update at full progress sets the
/// property to the captured value — not to anything the target holds later.
pub proof fn lemma_target_resolution_end_to_end<T: Interpolate>(
    target: Entity,
    captured: T,
    v: T,
    p1: int,
)
    ensures
        ({
            let a0 = Animation::<T>::to_target_spec(target);
            let a1 = a0.resolved_spec(captured);
            let a2 = a1.updated_anim(v, p1);
            &&& a0.has_target_spec() == Some(target)
            &&& a1.end == Value::<T>::Absolute(captured)
            &&& a1.updated_prop(v, p1) == v
            &&& a2.begin == Some(v)
            &&& a2.updated_prop(v, PROGRESS_ONE as int) == captured
        }),
{
    v.lemma_lerped_one(captured);
}

} // verus!
